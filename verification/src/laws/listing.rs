//! Laws of the sessions that are listed.
use vstd::prelude::*;

use crate::json::{group_members, opt_view, JsonView};
use crate::protocol::{line_of, success, CommandKind, DaemonCommand, DaemonResponse, ResponseView};
use crate::supervisor::{
    infos_in, infos_of, is_listing_place, item_line, list_answer, listing_infos, listing_lines,
    live_row_of, live_rows, offline_of, progress_line, row_of, rows_of, saved_answer, saved_lines,
    streamed_lines, summary_of, InfoView, ListingPlace, SessionInfo, WorkerDescriptor,
};
use crate::text::opt_text;

verus! {

/// A listing of one directory holds a session exactly where the scan found it and
/// it works in that directory, in the scan's order.
pub proof fn law_directories_list_their_sessions(infos: Seq<InfoView>, cwd: Seq<char>)
    ensures
        infos_in(infos, cwd) == infos.filter(|info: InfoView| info.cwd == cwd),
        forall|info: InfoView| #[trigger]
            infos_in(infos, cwd).contains(info) <==> infos.contains(info) && info.cwd == cwd,
        listing_infos(infos, true, cwd) == infos.filter(|info: InfoView| info.cwd == cwd),
        listing_infos(infos, false, cwd) == infos,
    decreases infos.len(),
{
    broadcast use vstd::seq_lib::group_filter_ensures;

    reveal(Seq::filter);
    let here = |info: InfoView| info.cwd == cwd;
    if infos.len() > 0 {
        law_directories_list_their_sessions(infos.drop_last(), cwd);
    }
    let listed = infos_in(infos, cwd);
    assert(listed == infos.filter(here));
    assert forall|info: InfoView| #[trigger] listed.contains(info) <==> infos.contains(info)
        && info.cwd == cwd by {
        if infos.contains(info) && info.cwd == cwd {
            let i = choose|i: int| 0 <= i < infos.len() && infos[i] == info;
            assert(here(infos[i]));
            assert(infos.filter(here).contains(infos[i]));
        }
        if listed.contains(info) {
            let i = choose|i: int| 0 <= i < listed.len() && listed[i] == info;
            assert(here(infos.filter(here)[i]));
            if infos.len() > 0 {
                let before = infos.drop_last();
                if infos_in(before, cwd).contains(info) {
                    assert(before.contains(info));
                    let k = choose|k: int| 0 <= k < before.len() && before[k] == info;
                    assert(infos[k] == info);
                } else {
                    if infos.last().cwd == cwd {
                        assert(listed == infos_in(before, cwd).push(infos.last()));
                        if i < infos_in(before, cwd).len() {
                            assert(infos_in(before, cwd)[i] == info);
                        }
                        assert(infos[infos.len() - 1] == info);
                    } else {
                        assert(listed == infos_in(before, cwd));
                    }
                }
            }
        }
    }
}

/// Every session of a listing is streamed once, in order, each followed by how many
/// of how many are loaded, and then the response holds them all.
pub proof fn law_listings_stream_every_session(
    id: Seq<char>,
    active: Option<Seq<char>>,
    infos: Seq<InfoView>,
)
    ensures
        ({
            let lines = listing_lines(id, active, infos);
            &&& lines.len() == 2 * infos.len() + 1
            &&& forall|i: int|
                0 <= i < infos.len() ==> (#[trigger] lines[2 * i]) == item_line(
                    id,
                    active,
                    infos[i],
                ) && lines[2 * i + 1] == progress_line(id, active, (i + 1) as nat, infos.len())
            &&& lines.last() == line_of(
                success(
                    Some(id),
                    "list_saved_sessions"@,
                    Some(JsonView::object().field("sessions"@, JsonView::Array(rows_of(infos)))),
                ),
            )
        }),
        rows_of(infos).len() == infos.len(),
        forall|i: int| 0 <= i < infos.len() ==> (#[trigger] rows_of(infos)[i]) == row_of(infos[i]),
{
    lemma_streamed(id, active, infos, infos.len());
}

proof fn lemma_streamed(
    id: Seq<char>,
    active: Option<Seq<char>>,
    infos: Seq<InfoView>,
    n: nat,
)
    requires
        n <= infos.len(),
    ensures
        streamed_lines(id, active, infos, n).len() == 2 * n,
        forall|i: int|
            0 <= i < n ==> (#[trigger] streamed_lines(id, active, infos, n)[2 * i]) == item_line(
                id,
                active,
                infos[i],
            ) && streamed_lines(id, active, infos, n)[2 * i + 1] == progress_line(
                id,
                active,
                (i + 1) as nat,
                infos.len(),
            ),
    decreases n,
{
    if n > 0 {
        lemma_streamed(id, active, infos, (n - 1) as nat);
        let before = streamed_lines(id, active, infos, (n - 1) as nat);
        let all = streamed_lines(id, active, infos, n);
        assert forall|i: int| 0 <= i < n implies (#[trigger] all[2 * i]) == item_line(
            id,
            active,
            infos[i],
        ) && all[2 * i + 1] == progress_line(id, active, (i + 1) as nat, infos.len()) by {
            if i < n - 1 {
                assert(all[2 * i] == before[2 * i]);
                assert(all[2 * i + 1] == before[2 * i + 1]);
            }
        }
    }
}

/// A streamed row names the request it is for and holds the session's row; a
/// progress line counts what is loaded.
pub proof fn law_streamed_rows_name_the_request(
    id: Seq<char>,
    active: Option<Seq<char>>,
    info: InfoView,
    loaded: nat,
    total: nat,
)
    ensures
        item_line(id, active, info).carries("id"@, JsonView::Str(id)),
        item_line(id, active, info).carries("session"@, row_of(info)),
        item_line(id, active, info).carries("type"@, JsonView::Str("session_list_item"@)),
        active is Some ==> item_line(id, active, info).carries(
            "activeSessionId"@,
            JsonView::Str(active->0),
        ),
        progress_line(id, active, loaded, total).carries("id"@, JsonView::Str(id)),
        progress_line(id, active, loaded, total).carries("loaded"@, JsonView::uint(loaded as u64)),
        progress_line(id, active, loaded, total).carries("total"@, JsonView::uint(total as u64)),
        progress_line(id, active, loaded, total).carries(
            "type"@,
            JsonView::Str("session_list_progress"@),
        ),
{
    broadcast use group_members;

}

/// A row says of a session what the scan found.
pub proof fn law_rows_show_the_session(info: InfoView)
    ensures
        ({
            let row = row_of(info);
            &&& row.carries("path"@, JsonView::Str(info.path))
            &&& row.carries("id"@, JsonView::Str(info.id))
            &&& row.carries("cwd"@, JsonView::Str(info.cwd))
            &&& row.carries("rlmDepth"@, JsonView::uint(info.rlm_depth))
            &&& row.carries("created"@, JsonView::Str(info.created))
            &&& row.carries("modified"@, JsonView::Str(info.modified))
            &&& row.carries("messageCount"@, JsonView::uint(info.message_count))
            &&& row.carries("firstMessage"@, JsonView::Str(info.first_message))
            &&& info.name matches Some(name) ==> row.carries("name"@, JsonView::Str(name))
            &&& info.parent_session_path matches Some(path) ==> row.carries(
                "parentSessionPath"@,
                JsonView::Str(path),
            )
            &&& info.state is None ==> row.carries("state"@, JsonView::Null)
            &&& info.state matches Some(state) ==> row.carries(
                "state"@,
                JsonView::object().field("status"@, JsonView::Str(state)),
            )
            &&& info.model matches Some((provider, model)) ==> row.carries(
                "model"@,
                JsonView::object().field("provider"@, JsonView::Str(provider)).field(
                    "modelId"@,
                    JsonView::Str(model),
                ),
            )
        }),
{
    broadcast use group_members;

}

/// The summary of a saved session is its own, and says that nothing runs in it.
pub proof fn law_saved_sessions_are_idle(info: InfoView)
    ensures
        ({
            let summary = summary_of(info);
            &&& summary.carries("id"@, JsonView::Str(info.id))
            &&& summary.carries("sessionId"@, JsonView::Str(info.id))
            &&& summary.carries("activeSessionId"@, JsonView::Str(info.id))
            &&& summary.carries("sessionFile"@, JsonView::Str(info.path))
            &&& summary.carries("cwd"@, JsonView::Str(info.cwd))
            &&& summary.carries("messageCount"@, JsonView::uint(info.message_count))
            &&& summary.carries("firstMessage"@, JsonView::Str(info.first_message))
            &&& summary.carries("created"@, JsonView::Str(info.created))
            &&& summary.carries("modified"@, JsonView::Str(info.modified))
            &&& summary.carries("isStreaming"@, JsonView::Bool(false))
            &&& summary.carries("isCompacting"@, JsonView::Bool(false))
            &&& summary.carries("isSessionActive"@, JsonView::Bool(false))
            &&& summary.carries("activity"@, JsonView::Str("idle"@))
            &&& summary.carries("attachedClients"@, JsonView::uint(0))
            &&& info.name matches Some(name) ==> summary.carries(
                "sessionName"@,
                JsonView::Str(name),
            )
            &&& info.name is None ==> summary.carries("sessionName"@, JsonView::Null)
        }),
{
    broadcast use group_members;

}

/// A live worker is shown by the state it reported; one that did not answer, or
/// answered with a failure, is shown as recovering under its own id; and no row is
/// made up for one that reported no state.
pub proof fn law_live_workers_are_shown_as_they_report(
    worker_id: Seq<char>,
    response: DaemonResponse,
)
    ensures
        response.success ==> live_row_of(worker_id, Some(response)) == opt_view(response.data),
        !response.success ==> live_row_of(worker_id, Some(response)) == Some(offline_of(worker_id)),
        live_row_of(worker_id, None) == Some(offline_of(worker_id)),
        offline_of(worker_id).carries("id"@, JsonView::Str(worker_id)),
        offline_of(worker_id).carries("lifecycle"@, JsonView::Str("recovering"@)),
        offline_of(worker_id).carries("activity"@, JsonView::Str("idle"@)),
{
    broadcast use group_members;

}

/// Every live worker that has a row is listed, in the order they were asked.
pub proof fn law_live_workers_are_all_listed(
    answers: Seq<(String, Option<DaemonResponse>)>,
    worker: (String, Option<DaemonResponse>),
)
    ensures
        live_rows(Seq::empty()).len() == 0,
        live_rows(answers.push(worker)) == (match live_row_of(worker.0@, worker.1) {
            Some(row) => live_rows(answers).push(row),
            None => live_rows(answers),
        }),
{
    assert(answers.push(worker).drop_last() =~= answers);
}

/// A listing looks where the named session's worker was created, or where the command
/// says where it names no session; it looks nowhere where the named session is not
/// there or nothing is named.
pub proof fn law_listings_look_where_asked(
    result: Result<ListingPlace, String>,
    wire: JsonView,
    resident: Option<&WorkerDescriptor>,
)
    requires
        is_listing_place(result, wire, resident),
    ensures
        wire.get_str("activeSessionId"@) is Some ==> (result is Ok <==> resident is Some),
        wire.get_str("activeSessionId"@) is None ==> (result is Ok <==> wire.get_str("cwd"@)
            is Some),
        wire.get_str("activeSessionId"@) is None ==> (wire.get_str("cwd"@) matches Some(cwd)
            ==> result->Ok_0.cwd@ == cwd && opt_text(result->Ok_0.session_dir) == wire.get_str(
            "sessionDir"@,
        )),
        wire.get_str("activeSessionId"@) is Some ==> (resident matches Some(descriptor) ==> opt_text(
            result->Ok_0.session_dir,
        ) == descriptor@.create_rest.get_str("sessionDir"@)),
        wire.get_str("activeSessionId"@) is Some ==> (resident matches Some(descriptor) ==> (
        descriptor@.create_rest.get_str("cwd"@) matches Some(cwd) ==> result->Ok_0.cwd@ == cwd)),
        wire.get_str("activeSessionId"@) is Some ==> (resident matches Some(descriptor) ==> (
        descriptor@.create_rest.get_str("cwd"@) is None ==> result->Ok_0.cwd@ == "/"@)),
        wire.get_str("activeSessionId"@) matches Some(active) ==> (resident is None
            ==> result->Err_0@ == "Unknown active session: "@ + active),
{
}

/// A listing of all sessions shows one summary for each session that was found, in
/// order; where it names a directory it shows exactly the sessions that work there.
pub proof fn law_all_found_sessions_are_answered(
    result: ResponseView,
    command: DaemonCommand,
    command_id: Seq<char>,
    infos: Seq<SessionInfo>,
)
    requires
        saved_answer(result, command, command_id, infos),
    ensures
        result.success && result.id == Some(command_id) && result.data is Some,
        command@.wire.get_str("cwd"@) is None ==> result.data->0.carries(
            "sessions"@,
            JsonView::Array(infos_of(infos).map_values(|info: InfoView| summary_of(info))),
        ),
        command@.wire.get_str("cwd"@) matches Some(cwd) ==> result.data->0.carries(
            "sessions"@,
            JsonView::Array(
                infos_of(infos).filter(|info: InfoView| info.cwd == cwd).map_values(
                    |info: InfoView| summary_of(info),
                ),
            ),
        ),
{
    broadcast use group_members;

    let all = infos_of(infos);
    assert(Seq::new(all.len(), |i: int| summary_of(all[i])) =~= all.map_values(
        |info: InfoView| summary_of(info),
    ));
    if let Some(cwd) = command@.wire.get_str("cwd"@) {
        law_directories_list_their_sessions(all, cwd);
        let here = infos_in(all, cwd);
        assert(Seq::new(here.len(), |i: int| summary_of(here[i])) =~= here.map_values(
            |info: InfoView| summary_of(info),
        ));
    }
}

/// A streamed listing tells of the sessions of its directory alone where it is asked for
/// the current one, and of every session else; a command that is no listing tells of
/// nothing.
pub proof fn law_streamed_listings_keep_their_scope(
    command: DaemonCommand,
    command_id: Seq<char>,
    cwd: Seq<char>,
    infos: Seq<SessionInfo>,
)
    ensures
        ({
            let lines = saved_lines(command, command_id, cwd, infos);
            let active = command@.wire.get_str("activeSessionId"@);
            let shown = if command@.wire.get_str("scope"@) == Some("current"@) {
                infos_of(infos).filter(|info: InfoView| info.cwd == cwd)
            } else {
                infos_of(infos)
            };
            &&& command.kind == CommandKind::ListSavedSessions ==> lines == listing_lines(
                command_id,
                active,
                shown,
            )
            &&& command.kind != CommandKind::ListSavedSessions ==> lines.len() == 0
        }),
{
    law_directories_list_their_sessions(infos_of(infos), cwd);
}

/// The live workers are answered with every row there is, under the command's own id.
pub proof fn law_live_workers_are_answered(
    command: DaemonCommand,
    command_id: Seq<char>,
    answers: Seq<(String, Option<DaemonResponse>)>,
)
    ensures
        list_answer(command, command_id, answers).success,
        list_answer(command, command_id, answers).id == Some(command_id),
        list_answer(command, command_id, answers).data->0.carries(
            "sessions"@,
            JsonView::Array(live_rows(answers)),
        ),
{
    broadcast use group_members;

}

} // verus!

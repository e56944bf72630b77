//! Laws of child sessions.
use vstd::prelude::*;
use vstd::utf8::encode_utf8;

use crate::json::{group_members, JsonView};
use crate::paths::joined;
use crate::rlm_children::{
    after_prompt, answer_text, answering, busy_state, child_command_json, child_config, child_dir,
    child_metadata, create_json, delete_json, handed_down, idle_wait, is_collect_step, is_entry,
    is_result, is_root_handle, is_root_place, is_spawn_depth, is_spawned,
    name_taken, preview_of, prompt_json, resolved_child, root_cwd, run_time, selector_parts,
    summary_id, ChildEnd, ChildRecord, ChildRequest, CollectStep, CreatedChild, IDLE_WAIT_GRACE_MS,
    ParentIdentity, PromptedChild, RlmChildResult, RlmCreateSessionHandle, RlmSubagentEntry,
    RUNTIME_METADATA_PROMPT_MAX, SupervisorChildSessions,
};
use crate::text::opt_text;

verus! {

/// A child is shown as running exactly while it has not ended, and else by how it
/// ended.
pub proof fn law_children_are_shown_as_they_stand(record: ChildRecord)
    ensures
        record.settled is None ==> record.status_text() == "running"@ && record.roster_text()
            == "running"@,
        record.settled == Some(ChildEnd::Done) ==> record.status_text() == "done"@
            && record.roster_text() == "completed"@,
        record.settled == Some(ChildEnd::Error) ==> record.status_text() == "error"@
            && record.roster_text() == "error"@,
{
}

/// A child whose work is done is done with the answer it then gave, taken once; and
/// asking it changes nothing else of it.
pub proof fn law_finished_children_keep_their_answer(
    record: ChildRecord,
    busy: Option<bool>,
    answer: Option<String>,
)
    ensures
        ({
            let after = record.refreshed(busy, answer);
            &&& record.settled is None && busy == Some(false) ==> after.settled == Some(
                ChildEnd::Done,
            ) && after.answer_captured && (!record.answer_captured ==> after.answer_preview
                == answer) && (record.answer_captured ==> after.answer_preview
                == record.answer_preview)
            &&& record.settled is Some || busy != Some(false) ==> after == record
            &&& after.rlm_child_id == record.rlm_child_id
            &&& after.session_name == record.session_name
            &&& after.active_session_id == record.active_session_id
            &&& after.session_id == record.session_id
            &&& after.session_dir == record.session_dir
            &&& after.label == record.label
            &&& after.started_at_ms == record.started_at_ms
        }),
{
}

/// A child is found by its id, its active session, its name and its session, and by
/// nothing else.
pub proof fn law_children_answer_to_their_own(record: ChildRecord, target: Seq<char>)
    ensures
        record.answers(record.rlm_child_id@),
        record.answers(record.active_session_id@),
        record.answers(record.session_name@),
        record.session_id matches Some(id) ==> record.answers(id@),
        record.answers(target) ==> target == record.rlm_child_id@ || target
            == record.active_session_id@ || target == record.session_name@ || opt_text(
            record.session_id,
        ) == Some(target),
{
}

proof fn lemma_answering_places(children: Seq<ChildRecord>, target: Seq<char>)
    ensures
        forall|i: int|
            0 <= i < answering(children, target).len() ==> 0 <= #[trigger] answering(
                children,
                target,
            )[i] < children.len() && children[answering(children, target)[i]].answers(target),
        forall|i: int, j: int|
            0 <= i < j < answering(children, target).len() ==> #[trigger] answering(
                children,
                target,
            )[i] < #[trigger] answering(children, target)[j],
        forall|k: int|
            0 <= k < children.len() && (#[trigger] children[k]).answers(target) ==> answering(
                children,
                target,
            ).contains(k),
    decreases children.len(),
{
    if children.len() > 0 {
        let before = children.drop_last();
        lemma_answering_places(before, target);
        let old = answering(before, target);
        let all = answering(children, target);
        let n = children.len() - 1;
        assert forall|i: int| 0 <= i < all.len() implies 0 <= #[trigger] all[i] < children.len()
            && children[all[i]].answers(target) by {
            if i < old.len() {
                assert(all[i] == old[i]);
                assert(before[old[i]] == children[old[i]]);
            }
        }
        assert forall|k: int|
            0 <= k < children.len() && (#[trigger] children[k]).answers(target) implies all.contains(
            k,
        ) by {
            if k < n {
                assert(before[k] == children[k]);
                assert(old.contains(k));
                let i = choose|i: int| 0 <= i < old.len() && old[i] == k;
                assert(all[i] == k);
            } else {
                assert(all[old.len() as int] == n);
            }
        }
    }
}

/// A selector resolves exactly where it is for one child alone: where it is for
/// none it is refused as unknown, and where it is for two as ambiguous.
pub proof fn law_selectors_resolve_where_alone(
    children: Seq<ChildRecord>,
    target: Seq<char>,
    kind: Seq<char>,
)
    ensures
        (forall|k: int| 0 <= k < children.len() ==> !(#[trigger] children[k]).answers(target))
            ==> resolved_child(children, target, kind) == Err::<int, Seq<char>>(
            "No direct RLM "@ + kind + " matches \""@ + target
                + "\" in the current parent session"@,
        ),
        forall|a: int, b: int|
            0 <= a < b < children.len() && (#[trigger] children[a]).answers(target) && (
            #[trigger] children[b]).answers(target) ==> resolved_child(children, target, kind)
                == Err::<int, Seq<char>>(
                "RLM "@ + kind + " selector \""@ + target
                    + "\" is ambiguous in the current parent session"@,
            ),
        forall|a: int|
            0 <= a < children.len() && (#[trigger] children[a]).answers(target) && (forall|b: int|
                0 <= b < children.len() && b != a ==> !(#[trigger] children[b]).answers(target))
                ==> resolved_child(children, target, kind) == Ok::<int, Seq<char>>(a),
{
    lemma_answering_places(children, target);
    let found = answering(children, target);
    if forall|k: int| 0 <= k < children.len() ==> !(#[trigger] children[k]).answers(target) {
        if found.len() > 0 {
            assert(children[found[0]].answers(target));
        }
    }
    assert forall|a: int, b: int|
        0 <= a < b < children.len() && (#[trigger] children[a]).answers(target) && (
        #[trigger] children[b]).answers(target) implies found.len() > 1 by {
        assert(found.contains(a) && found.contains(b));
        let i = choose|i: int| 0 <= i < found.len() && found[i] == a;
        let j = choose|j: int| 0 <= j < found.len() && found[j] == b;
        assert(i != j);
    }
    assert forall|a: int|
        0 <= a < children.len() && (#[trigger] children[a]).answers(target) && (forall|b: int|
            0 <= b < children.len() && b != a ==> !(#[trigger] children[b]).answers(
                target,
            )) implies resolved_child(children, target, kind) == Ok::<int, Seq<char>>(a) by {
        assert(found.contains(a));
        if found.len() > 1 {
            assert(found[0] < found[1]);
            assert(children[found[0]].answers(target));
            assert(children[found[1]].answers(target));
        }
        assert(children[found[0]].answers(target));
    }
}

/// A name is free exactly where no child has it.
pub proof fn law_child_names_are_taken_once(children: Seq<ChildRecord>, name: Seq<char>)
    ensures
        name_taken(children, name) <==> children.map_values(
            |child: ChildRecord| child.session_name@,
        ).contains(name),
{
    let names = children.map_values(|child: ChildRecord| child.session_name@);
    if name_taken(children, name) {
        let i = choose|i: int|
            0 <= i < children.len() && (#[trigger] children[i]).session_name@ == name;
        assert(names[i] == name);
    }
    if names.contains(name) {
        let i = choose|i: int| 0 <= i < names.len() && names[i] == name;
        assert(children[i].session_name@ == name);
    }
}

/// A child is listed and collected as its record says, and for as long as it ran; a
/// clock that went back gives no time.
pub proof fn law_children_are_listed_as_recorded(
    entry: RlmSubagentEntry,
    result: RlmChildResult,
    record: ChildRecord,
    now: u64,
)
    ensures
        is_entry(entry, record, now) ==> entry.rlm_child_id == record.rlm_child_id
            && entry.session_name == record.session_name && entry.session_dir == record.session_dir
            && entry.active_session_id == Some(record.active_session_id) && entry.session_id
            == record.session_id && entry.answer_preview == record.answer_preview && (
        entry.executing <==> record.settled is None) && entry.duration_ms == Some(
            run_time(now, record.started_at_ms),
        ) && entry.status@ == record.roster_text() && (record.label@.len() > 0 ==> opt_text(
            entry.label,
        ) == Some(record.label@)) && entry.last_activity_at == Some(record.started_at_ms),
        is_result(result, record, now) ==> result.rlm_child_id == record.rlm_child_id
            && result.answer_preview == record.answer_preview && (result.settled <==> record.settled
            is Some) && result.status@ == record.status_text() && result.session_name == Some(
            record.session_name,
        ) && result.session_dir == Some(record.session_dir) && result.duration_ms == Some(
            run_time(now, record.started_at_ms),
        ),
        now >= record.started_at_ms ==> run_time(now, record.started_at_ms) + record.started_at_ms
            == now,
        now < record.started_at_ms ==> run_time(now, record.started_at_ms) == 0,
{
}

/// A child's directory is its own below its parent's artifacts, and below the
/// temporary directory where the parent has no session.
pub proof fn law_children_lie_below_their_parent(
    agent_dir: Seq<char>,
    temp_dir: Seq<char>,
    session_id: Seq<char>,
    child_id: Seq<char>,
)
    ensures
        child_dir(agent_dir, temp_dir, Some(session_id), child_id) == joined(
            joined(joined(agent_dir, "session-artifacts"@), session_id),
            child_id,
        ),
        child_dir(agent_dir, temp_dir, None, child_id) == joined(
            temp_dir,
            "prime-agent-rlm-"@ + child_id,
        ),
{
}

/// A model selector is parted at its first slash, and is put together again from
/// its parts; one without a slash has none.
pub proof fn law_selectors_are_parted_at_the_first_slash(model: Seq<char>)
    ensures
        selector_parts(model) matches Some((provider, id)) ==> provider + "/"@ + id == model
            && !provider.contains('/'),
        selector_parts(model) is None ==> !model.contains('/'),
{
    reveal_strlit("/");
    crate::laws::texts::law_searches_find_the_first(model, "/"@, 0);
    match crate::text::find_from(model, "/"@, 0) {
        Some(at) => {
            assert(model.subrange(at, at + 1) =~= "/"@);
            assert(model.take(at) + "/"@ + model.skip(at + 1) =~= model);
            assert forall|k: int| 0 <= k < at implies model.take(at)[k] != '/' by {
                if model[k] == '/' {
                    assert(model.subrange(k, k + 1) =~= "/"@);
                    assert(crate::text::occurs_at(model, "/"@, k));
                }
            }
        },
        None => {
            assert forall|k: int| 0 <= k < model.len() implies model[k] != '/' by {
                if model[k] == '/' {
                    assert(model.subrange(k, k + 1) =~= "/"@);
                    assert(crate::text::occurs_at(model, "/"@, k));
                }
            }
        },
    }
}

/// A child gets what it was asked for: its directory, its depth and its parent's
/// bound, its model, its thinking level, its parent's file and its script.
pub proof fn law_children_are_configured_as_asked(
    request: ChildRequest,
    identity: ParentIdentity,
)
    ensures
        ({
            let config = child_config(request, identity);
            &&& config.carries("cwd"@, JsonView::Str(request.cwd@))
            &&& config.carries("sessionDir"@, JsonView::Str(request.session_dir@))
            &&& config.carries("rlmDepth"@, JsonView::uint(request.depth as u64))
            &&& config.carries("rlmMaxDepth"@, JsonView::uint(identity.rlm_max_depth as u64))
            &&& selector_parts(request.model@) matches Some((provider, id)) ==> config.carries(
                "provider"@,
                JsonView::Str(provider),
            ) && config.carries("model"@, JsonView::Str(id))
            &&& selector_parts(request.model@) is None ==> config.carries(
                "model"@,
                JsonView::Str(request.model@),
            )
            &&& opt_text(request.thinking) matches Some(level) ==> config.carries(
                "thinking"@,
                JsonView::Str(level),
            )
            &&& opt_text(identity.session_file) matches Some(file) ==> config.carries(
                "parentSessionPath"@,
                JsonView::Str(file),
            )
            &&& opt_text(identity.child_script) matches Some(script) ==> config.carries(
                "script"@,
                JsonView::Str(script),
            )
        }),
{
    broadcast use group_members;

}

/// A child is told its own id, its parent, its depth, the time, and its prompt
/// exactly where that is short enough.
pub proof fn law_children_are_told_who_they_are(
    child_id: Seq<char>,
    parent: Seq<char>,
    now: u64,
    request: ChildRequest,
    identity: ParentIdentity,
)
    ensures
        ({
            let told = child_metadata(child_id, parent, now, request, identity);
            &&& told.carries("kind"@, JsonView::Str("subagent"@))
            &&& told.carries("rlmChildId"@, JsonView::Str(child_id))
            &&& told.carries("parentActiveSessionId"@, JsonView::Str(parent))
            &&& told.carries("rlmDepth"@, JsonView::uint(request.depth as u64))
            &&& told.carries("createdAt"@, JsonView::uint(now))
            &&& encode_utf8(request.prompt@).len() <= RUNTIME_METADATA_PROMPT_MAX ==> told.carries(
                "prompt"@,
                JsonView::Str(request.prompt@),
            )
            &&& opt_text(identity.session_id) matches Some(id) ==> told.carries(
                "parentSessionId"@,
                JsonView::Str(id),
            )
            &&& opt_text(identity.session_file) matches Some(file) ==> told.carries(
                "parentSessionFile"@,
                JsonView::Str(file),
            )
            &&& selector_parts(request.model@) matches Some((provider, id)) ==> told.carries(
                "model"@,
                JsonView::object().field("provider"@, JsonView::Str(provider)).field(
                    "modelId"@,
                    JsonView::Str(id),
                ),
            )
        }),
{
    broadcast use group_members;

}

/// A child is created under the name it was given, with its configuration and what
/// it is told; and a command to a child names that child.
pub proof fn law_child_commands_name_the_child(
    name: Option<Seq<char>>,
    config: JsonView,
    metadata: Option<JsonView>,
    kind: Seq<char>,
    id: Seq<char>,
)
    ensures
        ({
            let create = create_json(name, config, metadata);
            &&& create.carries("type"@, JsonView::Str("create"@))
            &&& create.carries("config"@, config)
            &&& create.carries("lifecycle"@, JsonView::Str("resident"@))
            &&& name is Some ==> create.carries("name"@, JsonView::Str(name->0))
            &&& metadata is Some ==> create.carries("runtimeMetadata"@, metadata->0)
            &&& child_command_json(kind, id).carries("type"@, JsonView::Str(kind))
            &&& child_command_json(kind, id).carries("activeSessionId"@, JsonView::Str(id))
        }),
{
    broadcast use group_members;

}

/// A summary names its session by its active session where it says one, else by its
/// id, and never by an empty text.
pub proof fn law_summaries_name_their_session(summary: JsonView, id: Seq<char>)
    ensures
        id.len() > 0 && summary.get("activeSessionId"@) == Some(JsonView::Str(id)) ==> summary_id(
            summary,
        ) == Some(id),
        id.len() > 0 && summary.get("activeSessionId"@) is None && summary.get("id"@) == Some(
            JsonView::Str(id),
        ) ==> summary_id(summary) == Some(id),
        summary_id(summary) matches Some(found) ==> found.len() > 0 && (summary.get_str(
            "activeSessionId"@,
        ) == Some(found) || (summary.get("activeSessionId"@) is None && summary.get_str("id"@)
            == Some(found))),
{
}

/// A child is busy exactly while it streams or something is queued for it.
pub proof fn law_busy_children_have_work(state: JsonView)
    ensures
        busy_state(state) <==> state.get_bool("isStreaming"@) == Some(true) || (state.get(
            "sessionActions"@,
        ) is Some && state.get("sessionActions"@)->0.get_u64("queuedCount"@) is Some && state.get(
            "sessionActions"@,
        )->0.get_u64("queuedCount"@)->0 > 0),
{
}

/// A child's answer is its text, where it has one.
pub proof fn law_answers_are_their_text(answer: JsonView)
    ensures
        answer_text(answer) matches Some(text) ==> text.len() > 0 && answer.get_str("text"@) == Some(
            text,
        ),
        answer_text(answer) is None ==> answer.get_str("text"@) is None || answer.get_str(
            "text"@,
        )->0.len() == 0,
{
}

/// A new root session works where it was asked to: at an absolute path itself, and
/// at any other below the directory of the session that creates it, which is also
/// where it works without being asked.
pub proof fn law_root_sessions_work_where_asked(requested: Seq<char>, own: Seq<char>)
    ensures
        root_cwd(None, Some(own)) == own,
        root_cwd(None, None) == "/"@,
        root_cwd(Some(requested), Some(own)) == joined(own, requested),
        requested.len() > 0 && requested[0] == '/' ==> root_cwd(Some(requested), Some(own))
            == requested && root_cwd(Some(requested), None) == requested,
{
}

/// A collect is for every child where none is named, and else for exactly the named
/// ones, in the order they are named: it is refused exactly where a name does not
/// resolve.
pub proof fn law_collects_are_for_the_named(
    result: Result<Vec<usize>, String>,
    children: Seq<ChildRecord>,
    targets: Seq<String>,
)
    requires
        SupervisorChildSessions::is_collect(result, children, targets),
    ensures
        targets.len() == 0 ==> result is Ok && result->Ok_0@.len() == children.len(),
        result is Ok <==> forall|i: int|
            0 <= i < targets.len() ==> resolved_child(
                children,
                (#[trigger] targets[i])@,
                "child"@,
            ) is Ok,
        result matches Ok(places) ==> (targets.len() > 0 ==> places@.len() == targets.len()),
        result matches Ok(places) ==> forall|i: int|
            0 <= i < places@.len() ==> 0 <= #[trigger] places@[i] < children.len(),
        result matches Ok(places) ==> (targets.len() > 0 ==> forall|i: int|
            #![trigger places@[i]]
            0 <= i < targets.len() ==> resolved_child(children, targets[i]@, "child"@) == Ok::<
                int,
                Seq<char>,
            >(places@[i] as int)),
        result matches Ok(places) ==> (targets.len() == 0 ==> forall|i: int|
            0 <= i < children.len() ==> #[trigger] places@[i] == i),
{
    if let Ok(places) = result {
        if targets.len() > 0 {
            assert forall|i: int| 0 <= i < targets.len() implies resolved_child(
                children,
                (#[trigger] targets[i])@,
                "child"@,
            ) is Ok by {
                assert(places@[i] < children.len());
            }
        }
    }
}

/// Deleting a child takes exactly that child off the session's children, in their
/// order, and only where its worker was killed; a kill that failed keeps every child
/// and is the answer.
pub proof fn law_deleted_children_are_gone(
    before: SupervisorChildSessions,
    after: SupervisorChildSessions,
    result: Result<RlmSubagentEntry, String>,
    at: usize,
    killed: Result<(), String>,
    now_ms: u64,
)
    requires
        at < before.children@.len(),
        SupervisorChildSessions::is_deleted(before, after, result, at, killed, now_ms),
    ensures
        result is Ok <==> killed is Ok,
        killed matches Err(error) ==> result == Err::<RlmSubagentEntry, String>(error) && after
            == before,
        killed is Ok ==> after.children@.len() == before.children@.len() - 1 && result->Ok_0
            .rlm_child_id == before.children@[at as int].rlm_child_id,
        killed is Ok ==> forall|i: int|
            0 <= i < at ==> #[trigger] after.children@[i] == before.children@[i],
        killed is Ok ==> forall|i: int|
            at <= i < after.children@.len() ==> #[trigger] after.children@[i]
                == before.children@[i + 1],
        after.identity == before.identity && after.agent_dir == before.agent_dir,
        after.parent_active_session_id == before.parent_active_session_id,
{
}

/// A child that was spawned runs under its session's own name, or the one it was
/// given where the session has none; it has not settled and has no answer.
pub proof fn law_spawned_children_run(
    record: ChildRecord,
    child_id: Seq<char>,
    name: Seq<char>,
    created: CreatedChild,
    label: Seq<char>,
    now_ms: u64,
)
    requires
        is_spawned(record, child_id, name, created, label, now_ms),
    ensures
        record.rlm_child_id@ == child_id && record.label@ == label,
        created.session_name matches Some(own) ==> record.session_name@ == own@,
        created.session_name is None ==> record.session_name@ == name,
        record.active_session_id == created.active_session_id && record.session_id
            == created.session_id && record.session_dir == created.session_dir,
        record.settled is None && record.answer_preview is None && !record.answer_captured
            && record.started_at_ms == now_ms,
{
}

/// A collect waits for a child that still runs, once and under its own session, for
/// longer than the budget that is left; it collects a child that settled, or that was
/// waited for, as it stands.
pub proof fn law_running_children_are_waited_for(
    step: CollectStep,
    record: ChildRecord,
    waited: bool,
    remaining_ms: u64,
    now_ms: u64,
)
    requires
        remaining_ms <= u64::MAX - IDLE_WAIT_GRACE_MS,
        is_collect_step(step, record, waited, remaining_ms, now_ms),
    ensures
        step is Wait <==> record.settled is None && !waited,
        step matches CollectStep::Wait { active_session_id, ms } ==> active_session_id
            == record.active_session_id && ms == idle_wait(remaining_ms),
        step matches CollectStep::Collected(result) ==> is_result(result, record, now_ms)
            && result.settled == (record.settled is Some) && result.answer_preview
            == record.answer_preview,
        idle_wait(remaining_ms) is None <==> remaining_ms == 0,
        idle_wait(remaining_ms) matches Some(ms) ==> ms == remaining_ms + IDLE_WAIT_GRACE_MS,
{
}

/// A child that was created is known by what its summary says of it, and one whose
/// summary has no id is refused.
pub proof fn law_created_children_are_known(
    result: Result<CreatedChild, String>,
    summary: JsonView,
    session_dir: Seq<char>,
)
    requires
        CreatedChild::is_created(result, summary, session_dir),
    ensures
        summary.get_str("activeSessionId"@) matches Some(id) ==> (id.len() > 0 ==> result is Ok
            && result->Ok_0.active_session_id@ == id),
        result matches Ok(child) ==> child.active_session_id@.len() > 0,
        summary.get_str("activeSessionId"@) is None && summary.get_str("id"@) is None ==> result
            is Err,
        result matches Ok(child) ==> opt_text(child.session_id) == summary.get_str("sessionId"@)
            && opt_text(child.session_file) == summary.get_str("sessionFile"@) && opt_text(
            child.session_name,
        ) == summary.get_str("sessionName"@) && child.session_dir@ == session_dir
            && child.summary_rlm_depth == summary.get_u64("rlmDepth"@),
{
}

/// A child is kept exactly where it could be prompted; else it is killed, under its own
/// session, and the prompt's error is told.
pub proof fn law_unprompted_children_are_killed(created: CreatedChild, result: Result<(), String>)
    ensures
        result is Ok <==> after_prompt(created, result) == PromptedChild::Keep(created),
        result matches Err(error) ==> after_prompt(created, result) == (PromptedChild::Kill {
            active_session_id: created.active_session_id,
            error,
        }),
{
}

/// A root session is known by its own id, name and file, and by the id it is reached
/// under where it has none of its own; one that reports another depth is refused.
pub proof fn law_root_sessions_are_at_the_top(
    result: Result<RlmCreateSessionHandle, String>,
    created: CreatedChild,
    model: Seq<char>,
)
    requires
        is_root_handle(result, created, model),
    ensures
        result is Ok <==> created.summary_rlm_depth is None || created.summary_rlm_depth->0 == 0,
        result matches Ok(handle) ==> handle.active_session_id == created.active_session_id
            && handle.model@ == model && (created.session_id matches Some(id) ==> handle.session_id@
            == id@) && (created.session_name matches Some(name) ==> handle.name@ == name@) && (
        created.session_file matches Some(file) ==> handle.session_file@ == file@),
        result matches Ok(handle) ==> (created.session_id is None ==> handle.session_id@
            == created.active_session_id@) && (created.session_name is None ==> handle.name@
            == created.active_session_id@) && (created.session_file is None
            ==> handle.session_file@.len() == 0),
{
}

/// A child may have a name exactly where no tracked child has it.
pub proof fn law_taken_names_are_refused(
    result: Result<(), String>,
    children: Seq<ChildRecord>,
    name: Seq<char>,
    depth: u32,
)
    requires
        SupervisorChildSessions::is_name_verdict(result, children, name, depth),
    ensures
        result is Err <==> exists|i: int|
            0 <= i < children.len() && (#[trigger] children[i]).session_name@ == name,
{
    law_child_names_are_taken_once(children, name);
}

/// A child is previewed exactly where it has an answer, in its compacted form.
pub proof fn law_answers_are_previewed(answer: JsonView, compacted: Seq<char>)
    ensures
        preview_of(answer, compacted) is Some <==> answer_text(answer) is Some,
        preview_of(answer, compacted) matches Some(preview) ==> preview == compacted,
{
}

/// A child thinks as it is asked to, and else as its parent does.
pub proof fn law_levels_are_handed_down(level: &str, identity: ParentIdentity)
    ensures
        handed_down(Some(level), identity) == Some(level@),
        handed_down(None, identity) == opt_text(identity.thinking),
{
}

/// A child is prompted with the very prompt, under its own session, and killed under its
/// own session and its own id.
pub proof fn law_children_are_addressed(
    active_session_id: Seq<char>,
    prompt: Seq<char>,
    record: ChildRecord,
)
    ensures
        prompt_json(active_session_id, prompt).carries("type"@, JsonView::Str("prompt"@)),
        prompt_json(active_session_id, prompt).carries(
            "activeSessionId"@,
            JsonView::Str(active_session_id),
        ),
        prompt_json(active_session_id, prompt).carries("message"@, JsonView::Str(prompt)),
        delete_json(record).carries("type"@, JsonView::Str("kill"@)),
        delete_json(record).carries(
            "activeSessionId"@,
            JsonView::Str(record.active_session_id@),
        ),
        delete_json(record).carries("rlmChildId"@, JsonView::Str(record.rlm_child_id@)),
        delete_json(record).carries("rlmLedgerDelete"@, JsonView::Str("user"@)),
{
    broadcast use group_members;

}

/// Only a session at the top creates a root session, and it works below the top session's
/// own directory.
pub proof fn law_only_top_sessions_create_roots(
    result: Result<String, String>,
    identity: ParentIdentity,
    requested_cwd: Option<Seq<char>>,
)
    requires
        is_root_place(result, identity, requested_cwd),
    ensures
        result is Ok <==> identity.rlm_depth == 0,
        requested_cwd is None ==> (result matches Ok(cwd) ==> (identity.cwd matches Some(own)
            ==> cwd@ == own@)),
{
}

/// A child is one level below its parent, and there is one exactly where the parent is
/// above its bound.
pub proof fn law_spawned_children_are_one_deeper(
    result: Result<u32, String>,
    identity: ParentIdentity,
)
    requires
        is_spawn_depth(result, identity),
    ensures
        result is Ok <==> identity.rlm_depth < identity.rlm_max_depth,
        result matches Ok(depth) ==> depth == identity.rlm_depth + 1 && depth
            <= identity.rlm_max_depth,
{
}

} // verus!

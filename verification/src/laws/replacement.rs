//! Laws of the replacement of a session by another one.
use vstd::prelude::*;

use crate::branch_navigation::STILL_INITIALIZING;
use crate::json::{group_members, or_empty, JsonView};
use crate::paths::joined;
use crate::protocol::{failure, DaemonResponse};
use crate::scheduled_jobs::SessionBinding;
use crate::session_navigation::{
    import_place, is_fresh_session, is_replaced, is_replacement, missing_cwd_text, needed_cwd,
    replace_step, NewSession, ReplaceActionView, ReplaceEventView, ReplaceStage,
};
use crate::session_window::SessionFile;
use crate::text::opt_text;
use crate::worker::SessionCore;

verus! {

/// An import lands beside the live session's file and under its own name; a path
/// that is no file is refused by name before anything else.
pub proof fn law_imports_land_beside_the_session(
    payload: JsonView,
    is_file: bool,
    name: Option<Seq<char>>,
    dir: Option<Seq<char>>,
    default_name: Seq<char>,
)
    ensures
        ({
            let place = import_place(payload, is_file, name, dir, default_name);
            &&& place is Ok <==> is_file && dir is Some
            &&& !is_file ==> place == Err::<Seq<char>, Seq<char>>(
                "File not found: "@ + or_empty(payload.get_str("inputPath"@)),
            )
            &&& is_file && dir is None ==> place == Err::<Seq<char>, Seq<char>>(STILL_INITIALIZING@)
            &&& place matches Ok(target) ==> (name is Some ==> target == joined(dir->0, name->0))
                && (name is None ==> target == joined(dir->0, default_name))
        }),
{
}

/// A replacement works where it is told to, else where it was stored to, and is not
/// held to a directory where it has neither.
pub proof fn law_replacements_work_where_told(override_: Seq<char>, stored: Seq<char>)
    ensures
        needed_cwd(Some(override_), stored) == Some(override_),
        stored.len() > 0 ==> needed_cwd(None, stored) == Some(stored),
        stored.len() == 0 ==> needed_cwd(None, stored) is None,
        missing_cwd_text(override_, stored, override_) == "Stored session working directory does not exist: "@
            + override_ + "\nSession file: "@ + stored + "\nCurrent working directory: "@
            + override_,
{
}

/// A replacement whose every step succeeds tears the live session down, takes its
/// place, and is answered with success once it is there; a failed one is answered
/// with its own error.
pub proof fn law_replacements_go_through(command: Seq<char>, error: Seq<char>)
    ensures
        ({
            let prepared = replace_step(
                ReplaceStage::Preparing,
                command,
                ReplaceEventView::Prepared(None),
            );
            let torn = replace_step(prepared.0, command, ReplaceEventView::TornDown);
            let replaced = replace_step(torn.0, command, ReplaceEventView::Replaced(None));
            let failed = replace_step(torn.0, command, ReplaceEventView::Replaced(Some(error)));
            &&& prepared.1 == ReplaceActionView::TearDown
            &&& torn.1 == ReplaceActionView::Replace
            &&& failed == (
                ReplaceStage::Answered,
                ReplaceActionView::Answer(failure(None, command, error)),
            )
            &&& replaced.0 == ReplaceStage::Answered
            &&& replaced.1 matches ReplaceActionView::PrewarmThenAnswer(answer)
            &&& answer.success && answer.command == command && answer.data is Some
                && answer.data->0.carries("cancelled"@, JsonView::Bool(false))
        }),
{
    broadcast use group_members;

}

/// Success is told only for a replacement that took its place.
pub proof fn law_only_replaced_sessions_succeed(
    stage: ReplaceStage,
    command: Seq<char>,
    event: ReplaceEventView,
)
    ensures
        replace_step(stage, command, event).1 is PrewarmThenAnswer <==> stage
            == ReplaceStage::Replacing && event == ReplaceEventView::Replaced(None),
        replace_step(stage, command, event).1 matches ReplaceActionView::Answer(answer) ==> event
            == ReplaceEventView::Prepared(Some(answer)) || (event matches ReplaceEventView::Replaced(
            Some(error),
        ) && answer == failure(None, command, error)),
{
}

/// A replacement is the very file that was opened. It is refused exactly where it could
/// not be opened, for that reason, or where the working directory it needs is gone: the
/// one that is asked for, or else the one it was stored with.
pub proof fn law_replacements_need_their_directory(
    result: Result<SessionFile, DaemonResponse>,
    opened: Result<SessionFile, String>,
    path: Seq<char>,
    cwd_override: Option<Seq<char>>,
    cwd_is_dir: bool,
    current_cwd: Seq<char>,
    command: Seq<char>,
)
    requires
        is_replacement(result, opened, path, cwd_override, cwd_is_dir, current_cwd, command),
    ensures
        result matches Ok(file) ==> opened == Ok::<SessionFile, String>(file),
        opened matches Err(error) ==> result is Err && result->Err_0@.error == Some(error@),
        opened is Ok && cwd_is_dir ==> result is Ok,
        opened matches Ok(file) ==> (cwd_override is None && file.header.cwd@.len() == 0 ==> result
            is Ok),
        opened is Ok && cwd_override is Some && !cwd_is_dir ==> result is Err,
        opened matches Ok(file) ==> (file.header.cwd@.len() > 0 && !cwd_is_dir ==> result is Err),
        result matches Err(response) ==> !response@.success && response@.command == command,
{
}

/// A replacement takes the live session's place and nothing else of it; its jobs are
/// bound to the session as it is reached and to the replacement's own file, and to
/// nothing where it has none.
pub proof fn law_replacements_take_the_place(
    before: SessionCore,
    after: SessionCore,
    result: Option<(SessionBinding, Option<String>)>,
    file: SessionFile,
)
    requires
        is_replaced(before, after, result, file),
    ensures
        after.store == Some(file),
        after.active_session_id == before.active_session_id && after.cwd == before.cwd && after.busy
            == before.busy && after.steering == before.steering && after.follow_up
            == before.follow_up,
        result is Some <==> file.path@.len() > 0,
        result matches Some((binding, _)) ==> binding.active_session_id == before.active_session_id
            && binding.session_id == file.header.id && binding.session_file == file.path
            && binding.cwd == before.cwd,
{
}

/// A new session works where the live one does, under the parent that is named and as
/// deep as the live one; it is refused exactly while the live one is not open.
pub proof fn law_new_sessions_stand_beside_the_live_one(
    result: Result<NewSession, DaemonResponse>,
    payload: JsonView,
    core: SessionCore,
)
    requires
        is_fresh_session(result, payload, core),
    ensures
        result is Ok <==> core.store is Some,
        result matches Ok(fresh) ==> fresh.cwd == core.cwd && opt_text(fresh.parent_session)
            == payload.get_str("parentSession"@),
        result matches Ok(fresh) ==> (core.store->0.header.rlm_depth is None ==> fresh.rlm_depth
            == 0),
        result matches Ok(fresh) ==> (core.store->0.header.rlm_depth matches Some(depth) ==> (depth
            <= u32::MAX ==> fresh.rlm_depth == depth)),
{
}

} // verus!

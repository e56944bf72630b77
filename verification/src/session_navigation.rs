//! The replacement of a worker's session by another one: what is prepared, in
//! which order the replacement goes, and what a failed preparation leaves alone.
use vstd::prelude::*;

use crate::branch_navigation::{error_of, STILL_INITIALIZING};
use crate::json::{or_empty, Json, JsonView};
use crate::paths::{file_name, file_name_of, join_path, joined, parent, parent_of};
use crate::protocol::{
    failure, response_failure, response_success, success, DaemonResponse, ResponseView,
};
use crate::scheduled_jobs::{artifact_dir, live_binding, sessions_root, SessionBinding};
use crate::session_window::SessionFile;
use crate::text::{as_opt_str, concat2, concat5, is_empty_text, opt_str, opt_text, same_text};
use crate::worker::SessionCore;

verus! {

/// A new session that is to be prepared: where it works, its parent, its depth,
/// and the directory of its file where it has one.
#[derive(Debug, PartialEq, Eq)]
pub struct NewSession {
    pub cwd: String,
    pub parent_session: Option<String>,
    pub rlm_depth: u32,
    pub session_dir: Option<String>,
}

/// Whether a session, or its refusal, is what a new one beside the live one is.
pub open spec fn is_fresh_session(
    result: Result<NewSession, DaemonResponse>,
    payload: JsonView,
    core: SessionCore,
) -> bool {
    match result {
        Ok(fresh) => {
            &&& core.store is Some
            &&& fresh.cwd == core.cwd
            &&& opt_text(fresh.parent_session) == payload.get_str("parentSession"@)
            &&& fresh.rlm_depth == (match core.store->0.header.rlm_depth {
                Some(depth) => depth as u32,
                None => 0u32,
            })
            &&& opt_text(fresh.session_dir) == parent_of(core.store->0.path@)
        },
        Err(response) => core.store is None && response@ == failure(
            None,
            "new_session"@,
            STILL_INITIALIZING@,
        ),
    }
}

/// Prepare a new session beside the live one, in the directory of the live
/// session's file.
pub fn prepare_new_session(payload: &Json, core: &SessionCore) -> (r: Result<
    NewSession,
    DaemonResponse,
>)
    ensures
        is_fresh_session(r, payload@, *core),
{
    match &core.store {
        Some(store) => {
            let rlm_depth: u32 = match store.header.rlm_depth {
                Some(depth) => #[verifier::truncate] (depth as u32),
                None => 0,
            };
            Ok(
                NewSession {
                    cwd: core.cwd.clone(),
                    parent_session: payload.get_string("parentSession"),
                    rlm_depth,
                    session_dir: parent(store.path.as_str()),
                },
            )
        },
        None => Err(response_failure(None, "new_session", STILL_INITIALIZING, None)),
    }
}

/// The session file that a switch opens, and the working directory it brings.
pub fn switch_target(payload: &Json) -> (r: (String, Option<String>))
    ensures
        r.0@ == or_empty(payload@.get_str("sessionPath"@)),
        opt_text(r.1) == payload@.get_str("cwdOverride"@),
{
    (payload.get_string_or_empty("sessionPath"), payload.get_string("cwdOverride"))
}

/// What is known of a path that is to be imported: whether it is a file, and
/// its last name where it has one.
#[derive(Debug, PartialEq, Eq)]
pub struct ImportFacts {
    pub is_file: bool,
    pub file_name: Option<String>,
}

/// Where an imported file is copied to: beside the live session's file, under
/// its own name. A path that is no file is refused first, and so is an import
/// without a live session's directory.
pub open spec fn import_place(
    payload: JsonView,
    is_file: bool,
    file_name: Option<Seq<char>>,
    session_dir: Option<Seq<char>>,
    default_name: Seq<char>,
) -> Result<Seq<char>, Seq<char>> {
    if !is_file {
        Err("File not found: "@ + or_empty(payload.get_str("inputPath"@)))
    } else {
        match session_dir {
            None => Err(STILL_INITIALIZING@),
            Some(dir) => Ok(
                joined(
                    dir,
                    match file_name {
                        Some(name) => name,
                        None => default_name,
                    },
                ),
            ),
        }
    }
}

/// The directory of a live session's file, where it has one.
pub open spec fn live_dir(core: SessionCore) -> Option<Seq<char>> {
    match core.store {
        Some(store) => parent_of(store.path@),
        None => None,
    }
}

/// Where an imported file is copied to, or why it is not imported: a path that
/// is no file is refused first. The default name is for a path that ends in
/// none.
pub fn prepare_import_jsonl(
    payload: &Json,
    core: &SessionCore,
    is_file: bool,
    default_name: &str,
) -> (r: Result<String, DaemonResponse>)
    ensures
        ({
            let place = import_place(
                payload@,
                is_file,
                file_name_of(or_empty(payload@.get_str("inputPath"@))),
                live_dir(*core),
                default_name@,
            );
            match r {
                Ok(target) => place == Ok::<Seq<char>, Seq<char>>(target@),
                Err(response) => place is Err && response@ == failure(
                    None,
                    "import_jsonl"@,
                    place->Err_0,
                ),
            }
        }),
{
    let path = payload.get_string_or_empty("inputPath");
    let facts = ImportFacts { is_file, file_name: file_name(path.as_str()) };
    let dir = match &core.store {
        Some(store) => parent(store.path.as_str()),
        None => None,
    };
    import_target(payload, &facts, as_opt_str(&dir), default_name)
}

/// Where an imported file is copied to, or why it is not imported.
pub fn import_target(
    payload: &Json,
    facts: &ImportFacts,
    session_dir: Option<&str>,
    default_name: &str,
) -> (r: Result<String, DaemonResponse>)
    ensures
        match r {
            Ok(target) => import_place(
                payload@,
                facts.is_file,
                opt_text(facts.file_name),
                opt_str(session_dir),
                default_name@,
            ) == Ok::<Seq<char>, Seq<char>>(target@),
            Err(response) => {
                let place = import_place(
                    payload@,
                    facts.is_file,
                    opt_text(facts.file_name),
                    opt_str(session_dir),
                    default_name@,
                );
                place is Err && response@ == failure(None, "import_jsonl"@, place->Err_0)
            },
        },
{
    if !facts.is_file {
        let path = payload.get_string_or_empty("inputPath");
        return Err(
            response_failure(
                None,
                "import_jsonl",
                concat2("File not found: ", path.as_str()).as_str(),
                None,
            ),
        );
    }
    match session_dir {
        Some(dir) => {
            let name = match &facts.file_name {
                Some(name) => name.as_str(),
                None => default_name,
            };
            Ok(join_path(dir, name))
        },
        None => Err(response_failure(None, "import_jsonl", STILL_INITIALIZING, None)),
    }
}

/// Whether an imported file is copied, given the canonical forms of the target
/// and of the source, where they exist: an import in place skips the copy.
pub fn copies_import(target: Option<&str>, source: Option<&str>) -> (r: bool)
    ensures
        r == (opt_str(target) != opt_str(source)),
{
    match (target, source) {
        (Some(target), Some(source)) => !same_text(target, source),
        (None, None) => false,
        _ => true,
    }
}

/// The working directory that a replacement needs: the one it brings, else the
/// stored one where there is one.
pub open spec fn needed_cwd(override_: Option<Seq<char>>, stored: Seq<char>) -> Option<Seq<char>> {
    if override_ is Some {
        override_
    } else if stored.len() > 0 {
        Some(stored)
    } else {
        None
    }
}

/// The working directory that a replacement needs.
pub fn replacement_cwd(cwd_override: Option<&str>, stored: &str) -> (r: Option<String>)
    ensures
        opt_text(r) == needed_cwd(opt_str(cwd_override), stored@),
{
    match cwd_override {
        Some(cwd) => Some(cwd.to_owned()),
        None => if is_empty_text(stored) {
            None
        } else {
            Some(stored.to_owned())
        },
    }
}

/// The sentence about a working directory that is gone.
pub open spec fn missing_cwd_text(cwd: Seq<char>, path: Seq<char>, fallback: Seq<char>) -> Seq<char> {
    "Stored session working directory does not exist: "@ + cwd + "\nSession file: "@ + path
        + "\nCurrent working directory: "@ + fallback
}

/// Whether a file, or the refusal of it, is what opening a replacement gives.
pub open spec fn is_replacement(
    result: Result<SessionFile, DaemonResponse>,
    opened: Result<SessionFile, String>,
    path: Seq<char>,
    cwd_override: Option<Seq<char>>,
    cwd_is_dir: bool,
    current_cwd: Seq<char>,
    command: Seq<char>,
) -> bool {
    match opened {
        Err(error) => result is Err && result->Err_0@ == failure(None, command, error@),
        Ok(file) => {
            let cwd = needed_cwd(cwd_override, file.header.cwd@);
            if cwd is Some && !cwd_is_dir {
                result is Err && result->Err_0@ == failure(
                    None,
                    command,
                    missing_cwd_text(cwd->0, path, current_cwd),
                )
            } else {
                result == Ok::<SessionFile, DaemonResponse>(file)
            }
        },
    }
}

/// Whether a replacement that was opened can be used: the working directory it
/// needs must be there. The file is none where it could not be opened, for the
/// reason given.
pub fn open_replacement(
    opened: Result<SessionFile, String>,
    path: &str,
    cwd_override: Option<&str>,
    cwd_is_dir: bool,
    current_cwd: &str,
    command: &str,
) -> (r: Result<SessionFile, DaemonResponse>)
    ensures
        is_replacement(r, opened, path@, opt_str(cwd_override), cwd_is_dir, current_cwd@, command@),
{
    let file = match opened {
        Ok(file) => file,
        Err(error) => {
            return Err(response_failure(None, command, error.as_str(), None));
        },
    };
    match replacement_cwd(cwd_override, file.header.cwd.as_str()) {
        Some(cwd) => {
            if !cwd_is_dir {
                let head = concat5(
                    "Stored session working directory does not exist: ",
                    cwd.as_str(),
                    "\nSession file: ",
                    path,
                    "\nCurrent working directory: ",
                );
                let message = concat2(head.as_str(), current_cwd);
                assert(message@ =~= missing_cwd_text(cwd@, path@, current_cwd@));
                return Err(response_failure(None, command, message.as_str(), None));
            }
            Ok(file)
        },
        None => Ok(file),
    }
}

/// Whether a session and a binding are what putting a replacement in place gives.
pub open spec fn is_replaced(
    before: SessionCore,
    after: SessionCore,
    result: Option<(SessionBinding, Option<String>)>,
    file: SessionFile,
) -> bool {
    &&& after == (SessionCore { store: Some(file), ..before })
    &&& match result {
        Some((binding, dir)) => file.path@.len() > 0 && binding == (SessionBinding {
            active_session_id: before.active_session_id,
            session_id: file.header.id,
            session_file: file.path,
            cwd: before.cwd,
        }) && opt_text(dir) == artifact_dir(sessions_root(file.path@), file.header.id@),
        None => file.path@.len() == 0,
    }
}

/// Put a replacement in the live session's place, and say what its jobs are
/// bound to.
pub fn replace_session(core: &mut SessionCore, file: SessionFile) -> (r: Option<
    (SessionBinding, Option<String>),
>)
    ensures
        is_replaced(*old(core), *final(core), r, file),
{
    core.store = Some(file);
    live_binding(core)
}

/// Where a replacement is.
#[derive(Debug, Clone, Copy, PartialEq, Eq, Structural)]
pub enum ReplaceStage {
    /// The replacement is prepared.
    Preparing,
    /// The live session's runtime is torn down.
    TearingDown,
    /// The replacement takes its place.
    Replacing,
    Answered,
}

/// What happened to a replacement.
#[derive(Debug, PartialEq, Eq)]
pub enum ReplaceEvent {
    /// The replacement was prepared, or refused with this answer.
    Prepared(Result<(), DaemonResponse>),
    TornDown,
    /// The replacement took its place, or could not.
    Replaced(Result<(), String>),
}

/// What is done next for a replacement.
#[derive(Debug, PartialEq, Eq)]
pub enum ReplaceAction {
    TearDown,
    Replace,
    Answer(DaemonResponse),
    /// The new session is built ahead of its first turn, and the command is
    /// answered.
    PrewarmThenAnswer(DaemonResponse),
    /// The event does not fit: nothing is done.
    Ignore,
}

/// The mathematical event behind a [`ReplaceEvent`].
#[verifier::ext_equal]
pub enum ReplaceEventView {
    Prepared(Option<ResponseView>),
    TornDown,
    Replaced(Option<Seq<char>>),
}

impl View for ReplaceEvent {
    type V = ReplaceEventView;

    open spec fn view(&self) -> ReplaceEventView {
        match self {
            ReplaceEvent::Prepared(Ok(_)) => ReplaceEventView::Prepared(None),
            ReplaceEvent::Prepared(Err(response)) => ReplaceEventView::Prepared(Some(response@)),
            ReplaceEvent::TornDown => ReplaceEventView::TornDown,
            ReplaceEvent::Replaced(outcome) => ReplaceEventView::Replaced(error_of(*outcome)),
        }
    }
}

/// The mathematical action behind a [`ReplaceAction`].
#[verifier::ext_equal]
pub enum ReplaceActionView {
    TearDown,
    Replace,
    Answer(ResponseView),
    PrewarmThenAnswer(ResponseView),
    Ignore,
}

impl View for ReplaceAction {
    type V = ReplaceActionView;

    open spec fn view(&self) -> ReplaceActionView {
        match self {
            ReplaceAction::TearDown => ReplaceActionView::TearDown,
            ReplaceAction::Replace => ReplaceActionView::Replace,
            ReplaceAction::Answer(response) => ReplaceActionView::Answer(response@),
            ReplaceAction::PrewarmThenAnswer(response) => ReplaceActionView::PrewarmThenAnswer(
                response@,
            ),
            ReplaceAction::Ignore => ReplaceActionView::Ignore,
        }
    }
}

/// The next stage and action of a replacement.
pub open spec fn replace_step(
    stage: ReplaceStage,
    command: Seq<char>,
    event: ReplaceEventView,
) -> (ReplaceStage, ReplaceActionView) {
    match (stage, event) {
        (ReplaceStage::Preparing, ReplaceEventView::Prepared(refusal)) => match refusal {
            Some(response) => (ReplaceStage::Answered, ReplaceActionView::Answer(response)),
            None => (ReplaceStage::TearingDown, ReplaceActionView::TearDown),
        },
        (ReplaceStage::TearingDown, ReplaceEventView::TornDown) => (
            ReplaceStage::Replacing,
            ReplaceActionView::Replace,
        ),
        (ReplaceStage::Replacing, ReplaceEventView::Replaced(error)) => match error {
            Some(error) => (
                ReplaceStage::Answered,
                ReplaceActionView::Answer(failure(None, command, error)),
            ),
            None => (
                ReplaceStage::Answered,
                ReplaceActionView::PrewarmThenAnswer(
                    success(
                        None,
                        command,
                        Some(JsonView::object().field("cancelled"@, JsonView::Bool(false))),
                    ),
                ),
            ),
        },
        _ => (stage, ReplaceActionView::Ignore),
    }
}

/// Take what happened to a replacement, and say what is done next.
pub fn run_session_replacement(stage: &mut ReplaceStage, command: &str, event: ReplaceEvent) -> (r:
    ReplaceAction)
    ensures
        (*final(stage), r@) == replace_step(*old(stage), command@, event@),
{
    match (*stage, event) {
        (ReplaceStage::Preparing, ReplaceEvent::Prepared(prepared)) => match prepared {
            Ok(_) => {
                *stage = ReplaceStage::TearingDown;
                ReplaceAction::TearDown
            },
            Err(response) => {
                *stage = ReplaceStage::Answered;
                ReplaceAction::Answer(response)
            },
        },
        (ReplaceStage::TearingDown, ReplaceEvent::TornDown) => {
            *stage = ReplaceStage::Replacing;
            ReplaceAction::Replace
        },
        (ReplaceStage::Replacing, ReplaceEvent::Replaced(outcome)) => {
            *stage = ReplaceStage::Answered;
            match outcome {
                Ok(_) => ReplaceAction::PrewarmThenAnswer(
                    response_success(
                        None,
                        command,
                        Some(Json::object().field("cancelled", Json::Bool(false))),
                    ),
                ),
                Err(error) => ReplaceAction::Answer(
                    response_failure(None, command, error.as_str(), None),
                ),
            }
        },
        _ => ReplaceAction::Ignore,
    }
}

/// The stage after a run of events, from the start of a replacement.
pub open spec fn stage_after(command: Seq<char>, events: Seq<ReplaceEventView>) -> ReplaceStage
    decreases events.len(),
{
    if events.len() == 0 {
        ReplaceStage::Preparing
    } else {
        replace_step(stage_after(command, events.drop_last()), command, events.last()).0
    }
}

/// A failed preparation leaves the live session alone: it is answered at once,
/// and whatever happens then, nothing is torn down or replaced; the live
/// session is torn down only once a replacement was prepared, and replaced only
/// once it was torn down.
pub proof fn law_failed_preparations_change_nothing(
    stage: ReplaceStage,
    command: Seq<char>,
    refusal: ResponseView,
    event: ReplaceEventView,
)
    ensures
        replace_step(
            ReplaceStage::Preparing,
            command,
            ReplaceEventView::Prepared(Some(refusal)),
        ) == (ReplaceStage::Answered, ReplaceActionView::Answer(refusal)),
        replace_step(ReplaceStage::Answered, command, event) == (
            ReplaceStage::Answered,
            ReplaceActionView::Ignore,
        ),
        replace_step(stage, command, event).1 == ReplaceActionView::TearDown <==> stage
            == ReplaceStage::Preparing && event == ReplaceEventView::Prepared(None),
        replace_step(stage, command, event).1 == ReplaceActionView::Replace <==> stage
            == ReplaceStage::TearingDown && event == ReplaceEventView::TornDown,
{
}

/// A replacement that was refused stays refused, whatever happens after.
pub proof fn law_refusals_are_final(command: Seq<char>, events: Seq<ReplaceEventView>)
    requires
        events.len() > 0,
        events[0] matches ReplaceEventView::Prepared(Some(_)),
    ensures
        stage_after(command, events) == ReplaceStage::Answered,
    decreases events.len(),
{
    if events.len() == 1 {
        assert(events.drop_last() =~= Seq::empty());
    } else {
        assert(events.drop_last()[0] == events[0]);
        law_refusals_are_final(command, events.drop_last());
    }
}

} // verus!

//! Which live worker answers a create: a create for a session file that a live
//! worker already serves is answered by that worker, and no second one is
//! launched over the same file.
use vstd::prelude::*;

use crate::json::{opt_view, Json, JsonView};
use crate::peer_tickets::{effective_worker_state, worker_state};
use crate::protocol::{CommandKind, DaemonCommand, DaemonResponse};
use crate::supervisor::WorkerDescriptor;
use crate::text::{concat2, concat3, concat4, concat5, opt_text, same_text};

verus! {

/// How long an open waits for a stopping worker's teardown.
pub const STOP_SETTLE_WAIT_MS: u64 = 10_000;

/// How often a stopping worker is looked at.
pub const STOP_SETTLE_POLL_MS: u64 = 50;

/// How long a session lives: with the client that created it, or with the daemon.
#[derive(Debug, Clone, Copy, PartialEq, Eq, Structural)]
pub enum DaemonSessionLifecycle {
    ClientOwned,
    Resident,
}

/// A worker registered for a session file.
#[derive(Debug, PartialEq, Eq)]
pub struct ResidentWorker {
    pub descriptor: WorkerDescriptor,
    pub stopping: bool,
    pub retired: bool,
    pub connected: bool,
    pub session_ready: bool,
}

/// What a create can do with a worker.
#[derive(Debug, Clone, Copy, PartialEq, Eq, Structural)]
pub enum ReuseClass {
    /// Connected with its session created: reused now.
    Ready,
    /// Its replacement may still be coming: waited for, then reused.
    Waitable,
    /// Stopping or retired: its teardown is waited out.
    Stopping,
}

/// What a create can do with a worker.
pub open spec fn reuse_class(resident: ResidentWorker) -> ReuseClass {
    if resident.stopping || resident.retired {
        ReuseClass::Stopping
    } else if resident.connected && resident.session_ready {
        ReuseClass::Ready
    } else {
        ReuseClass::Waitable
    }
}

fn classify(resident: &ResidentWorker) -> (r: ReuseClass)
    ensures
        r == reuse_class(*resident),
{
    if resident.stopping || resident.retired {
        ReuseClass::Stopping
    } else if resident.connected && resident.session_ready {
        ReuseClass::Ready
    } else {
        ReuseClass::Waitable
    }
}

/// The first worker of a class among the first `n`.
pub open spec fn first_of(residents: Seq<ResidentWorker>, class: ReuseClass) -> Option<int>
    decreases residents.len(),
{
    if residents.len() == 0 {
        None
    } else {
        match first_of(residents.drop_last(), class) {
            Some(i) => Some(i),
            None => if reuse_class(residents.last()) == class {
                Some(residents.len() - 1)
            } else {
                None
            },
        }
    }
}

proof fn lemma_first_of(residents: Seq<ResidentWorker>, class: ReuseClass)
    ensures
        match first_of(residents, class) {
            Some(i) => 0 <= i < residents.len() && reuse_class(residents[i]) == class
                && forall|j: int|
                0 <= j < i ==> reuse_class(#[trigger] residents[j]) != class,
            None => forall|j: int|
                0 <= j < residents.len() ==> reuse_class(#[trigger] residents[j]) != class,
        },
    decreases residents.len(),
{
    if residents.len() > 0 {
        let before = residents.drop_last();
        lemma_first_of(before, class);
        assert forall|j: int| 0 <= j < before.len() implies #[trigger] residents[j]
            == before[j] by {}
    }
}

fn find_first(residents: &Vec<ResidentWorker>, class: ReuseClass) -> (r: Option<usize>)
    ensures
        match r {
            Some(i) => i < residents@.len() && first_of(residents@, class) == Some(i as int),
            None => first_of(residents@, class) is None,
        },
{
    proof {
        lemma_first_of(residents@, class);
    }
    let mut i: usize = 0;
    while i < residents.len()
        invariant
            i <= residents@.len(),
            forall|j: int| 0 <= j < i ==> reuse_class(#[trigger] residents@[j]) != class,
            match first_of(residents@, class) {
                Some(i) => 0 <= i < residents@.len() && reuse_class(residents@[i]) == class
                    && forall|j: int|
                    0 <= j < i ==> reuse_class(#[trigger] residents@[j]) != class,
                None => forall|j: int|
                    0 <= j < residents@.len() ==> reuse_class(#[trigger] residents@[j]) != class,
            },
        decreases residents@.len() - i,
    {
        if classify(&residents[i]) == class {
            return Some(i);
        }
        i = i + 1;
    }
    None
}

/// The session file that a create may find a live worker for.
pub open spec fn reused_path(kind: CommandKind, wire: JsonView) -> Option<Seq<char>> {
    if kind == CommandKind::Create && wire.get_bool(
        "noSession"@,
    ) != Some(true) {
        wire.get_str("sessionPath"@)
    } else {
        None
    }
}

/// The session file that a create may find a live worker for: a create with a
/// file, and not one that wants none.
pub fn reuse_path(command: &DaemonCommand) -> (r: Option<String>)
    ensures
        opt_text(r) == reused_path(command.kind, command.wire@),
{
    if command.kind != CommandKind::Create {
        return None;
    }
    if command.wire.get_bool("noSession") == Some(true) {
        return None;
    }
    command.wire.get_string("sessionPath")
}

/// Why a create may not have a worker: only a create for a session that its
/// client owns is exclusive, and only against another client.
pub open spec fn owner_conflict(
    resident: ResidentWorker,
    lifecycle: Option<DaemonSessionLifecycle>,
    client_id: Seq<char>,
    session_path: Seq<char>,
) -> Option<Seq<char>> {
    match opt_text(resident.descriptor.owner_client_id) {
        Some(owner) if lifecycle == Some(DaemonSessionLifecycle::ClientOwned) && owner
            != client_id => Some(
            "Session is already active in "@ + resident.descriptor.root_active_session_id@ + ": "@
                + session_path,
        ),
        _ => None,
    }
}

/// Why a create may not have a worker, where it may not.
pub fn client_owned_conflict(
    resident: &ResidentWorker,
    lifecycle: Option<DaemonSessionLifecycle>,
    client_id: &str,
    session_path: &str,
) -> (r: Option<String>)
    ensures
        opt_text(r) == owner_conflict(*resident, lifecycle, client_id@, session_path@),
{
    if lifecycle != Some(DaemonSessionLifecycle::ClientOwned) {
        return None;
    }
    match &resident.descriptor.owner_client_id {
        Some(owner) => {
            if same_text(owner.as_str(), client_id) {
                None
            } else {
                Some(
                    concat4(
                        "Session is already active in ",
                        resident.descriptor.root_active_session_id.as_str(),
                        ": ",
                        session_path,
                    ),
                )
            }
        },
        None => None,
    }
}

/// What a create does about the workers of its session file.
#[derive(Debug, PartialEq, Eq)]
pub enum ReusePlan {
    /// Launch a worker.
    Launch,
    /// The worker at this place answers.
    Reuse { at: usize },
    /// The create is refused.
    Refuse { message: String },
    /// The worker at this place stops first, then a worker is launched.
    AwaitStop { at: usize },
}

/// The mathematical plan behind a [`ReusePlan`].
#[verifier::ext_equal]
pub enum PlanView {
    Launch,
    Reuse { at: int },
    Refuse { message: Seq<char> },
    AwaitStop { at: int },
}

impl View for ReusePlan {
    type V = PlanView;

    open spec fn view(&self) -> PlanView {
        match self {
            ReusePlan::Launch => PlanView::Launch,
            ReusePlan::Reuse { at } => PlanView::Reuse { at: *at as int },
            ReusePlan::Refuse { message } => PlanView::Refuse { message: message@ },
            ReusePlan::AwaitStop { at } => PlanView::AwaitStop { at: *at as int },
        }
    }
}

/// What a create does with the worker it would be answered by.
pub open spec fn reuse_or_refuse(
    residents: Seq<ResidentWorker>,
    at: int,
    lifecycle: Option<DaemonSessionLifecycle>,
    client_id: Seq<char>,
    session_path: Seq<char>,
) -> PlanView {
    match owner_conflict(residents[at], lifecycle, client_id, session_path) {
        Some(message) => PlanView::Refuse { message },
        None => PlanView::Reuse { at },
    }
}

/// What a create does about the workers of its session file: the first ready
/// one answers, else the first that is coming back, else the first that stops
/// is waited out, and else a worker is launched.
pub open spec fn reuse_plan(
    residents: Seq<ResidentWorker>,
    lifecycle: Option<DaemonSessionLifecycle>,
    client_id: Seq<char>,
    session_path: Seq<char>,
) -> PlanView {
    match first_of(residents, ReuseClass::Ready) {
        Some(at) => reuse_or_refuse(residents, at, lifecycle, client_id, session_path),
        None => match first_of(residents, ReuseClass::Waitable) {
            Some(at) => reuse_or_refuse(residents, at, lifecycle, client_id, session_path),
            None => match first_of(residents, ReuseClass::Stopping) {
                Some(at) => PlanView::AwaitStop { at },
                None => PlanView::Launch,
            },
        },
    }
}

/// What a create does about the workers of its session file.
pub fn reuse_live_worker_for_create(
    residents: &Vec<ResidentWorker>,
    lifecycle: Option<DaemonSessionLifecycle>,
    client_id: &str,
    session_path: &str,
) -> (r: ReusePlan)
    ensures
        r@ == reuse_plan(residents@, lifecycle, client_id@, session_path@),
{
    let live = match find_first(residents, ReuseClass::Ready) {
        Some(at) => Some(at),
        None => find_first(residents, ReuseClass::Waitable),
    };
    match live {
        Some(at) => match client_owned_conflict(&residents[at], lifecycle, client_id, session_path) {
            Some(message) => ReusePlan::Refuse { message },
            None => ReusePlan::Reuse { at },
        },
        None => match find_first(residents, ReuseClass::Stopping) {
            Some(at) => ReusePlan::AwaitStop { at },
            None => ReusePlan::Launch,
        },
    }
}

/// No worker is launched over a file that a live one serves: while any worker
/// of the file is neither stopping nor retired, a create is answered by such a
/// worker or refused; and where none is registered, a worker is launched.
pub proof fn law_no_launch_over_a_live_worker(
    residents: Seq<ResidentWorker>,
    lifecycle: Option<DaemonSessionLifecycle>,
    client_id: Seq<char>,
    session_path: Seq<char>,
)
    ensures
        ({
            let plan = reuse_plan(residents, lifecycle, client_id, session_path);
            let live = exists|i: int|
                0 <= i < residents.len() && reuse_class(#[trigger] residents[i])
                    != ReuseClass::Stopping;
            &&& live <==> (plan is Reuse || plan is Refuse)
            &&& plan is Launch <==> residents.len() == 0
            &&& plan matches PlanView::Reuse { at } ==> 0 <= at < residents.len() && reuse_class(
                residents[at],
            ) != ReuseClass::Stopping
            &&& plan is Refuse ==> lifecycle == Some(DaemonSessionLifecycle::ClientOwned)
        }),
{
    lemma_first_of(residents, ReuseClass::Ready);
    lemma_first_of(residents, ReuseClass::Waitable);
    lemma_first_of(residents, ReuseClass::Stopping);
    if residents.len() > 0 {
        let first = residents[0];
        assert(reuse_class(first) == ReuseClass::Ready || reuse_class(first) == ReuseClass::Waitable
            || reuse_class(first) == ReuseClass::Stopping);
    }
}

/// How the worker that a create would be answered by was reached.
#[derive(Debug, PartialEq, Eq)]
pub enum ReuseRoute {
    /// It answered.
    Answered(DaemonResponse),
    /// It went away, and no other comes.
    NotConnected,
    /// It could not be reached in time.
    Failed,
}

/// Whether an answer is what a create that found a worker is answered by.
pub open spec fn is_reused(
    result: Result<Option<Json>, String>,
    route: ReuseRoute,
    resident: ResidentWorker,
    session_path: Seq<char>,
) -> bool {
    match route {
        ReuseRoute::Answered(response) => if response.success
            && response@.data is Some && response@.data->0 is Object {
            result is Ok && opt_view(result->Ok_0) == response@.data
        } else {
            result is Err && result->Err_0@ == "Session \""@ + session_path
                + "\" worker is unavailable for reuse: assigned root session is missing"@
        },
        ReuseRoute::NotConnected => result is Ok && result->Ok_0 is None,
        ReuseRoute::Failed => result is Err && result->Err_0@ == "Session \""@ + session_path
            + "\" worker is "@ + worker_state(
            resident.connected,
            resident.descriptor.lifecycle,
            resident.stopping,
        ) + (match opt_text(resident.descriptor.last_error) {
            Some(error) => ": "@ + error,
            None => Seq::empty(),
        }),
    }
}

/// The answer of the worker that a create is answered by: its state where that
/// is an object; nothing where the worker went away, so that one is launched;
/// and else what the worker is doing.
pub fn reuse_ready_summary(
    route: ReuseRoute,
    resident: &ResidentWorker,
    session_path: &str,
) -> (r: Result<Option<Json>, String>)
    ensures
        is_reused(r, route, *resident, session_path@),
{
    match route {
        ReuseRoute::Answered(response) => {
            let missing = concat3(
                "Session \"",
                session_path,
                "\" worker is unavailable for reuse: assigned root session is missing",
            );
            if !response.success {
                return Err(missing);
            }
            match response.data {
                Some(data) => {
                    if data.is_object() {
                        Ok(Some(data))
                    } else {
                        Err(missing)
                    }
                },
                None => Err(missing),
            }
        },
        ReuseRoute::NotConnected => Ok(None),
        ReuseRoute::Failed => {
            let state = effective_worker_state(
                resident.connected,
                &resident.descriptor.lifecycle,
                resident.stopping,
            );
            let detail = match &resident.descriptor.last_error {
                Some(error) => concat2(": ", error.as_str()),
                None => String::new(),
            };
            let message = concat5(
                "Session \"",
                session_path,
                "\" worker is ",
                state,
                detail.as_str(),
            );
            Err(message)
        },
    }
}

/// Whether a worker's process may be alive.
pub open spec fn may_live(resident: ResidentWorker, observed: Option<bool>) -> bool {
    (resident.descriptor.pid != 0 && observed != Some(false))
}

/// Whether a worker's process may be alive: one that was never spawned is not,
/// and one that cannot be asked about counts as alive.
pub fn resident_process_alive(resident: &ResidentWorker, observed: Option<bool>) -> (r: bool)
    ensures
        r == may_live(*resident, observed),
{
    if resident.descriptor.pid == 0 {
        return false;
    }
    match observed {
        Some(alive) => alive,
        None => true,
    }
}

/// What an open that waits for a stopping worker does next.
#[derive(Debug, PartialEq, Eq)]
pub enum StopSettle {
    /// The file is free: launch.
    Launch,
    /// The wait took too long.
    Refuse { message: String },
    /// Look again after the pause.
    Sleep { ms: u64 },
}

/// Whether a step is one look of an open at a stopping worker.
pub open spec fn is_stop_look(
    step: StopSettle,
    registered: bool,
    process_alive: bool,
    deadline_passed: bool,
    session_path: Seq<char>,
) -> bool {
    match step {
        StopSettle::Launch => !registered || !process_alive,
        StopSettle::Refuse { message } => registered && process_alive && deadline_passed
            && message@ == "Session \""@ + session_path + "\" worker is stopping"@,
        StopSettle::Sleep { ms } => registered && process_alive && !deadline_passed && ms
            == STOP_SETTLE_POLL_MS,
    }
}

/// One look of an open at a stopping worker: the worker is gone when it left
/// the registry or its process died; past the deadline the open is refused.
pub fn await_stop_settled(
    registered: bool,
    process_alive: bool,
    deadline_passed: bool,
    session_path: &str,
) -> (r: StopSettle)
    ensures
        is_stop_look(r, registered, process_alive, deadline_passed, session_path@),
{
    if !registered || !process_alive {
        StopSettle::Launch
    } else if deadline_passed {
        StopSettle::Refuse { message: concat3("Session \"", session_path, "\" worker is stopping") }
    } else {
        StopSettle::Sleep { ms: STOP_SETTLE_POLL_MS }
    }
}

} // verus!

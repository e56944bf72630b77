//! The supervisor's decisions: launching, watching and relaunching session
//! workers, resolving and routing client commands, and the rows it lists.
use vstd::prelude::*;

use crate::ids::fresh_id;
use crate::json::{
    items_view, json_of_bytes, json_of_text, lemma_items_view, opt_view, or_empty, parse_json,
    parse_json_bytes, Json, JsonView,
};
use crate::paths::{file_stem, file_stem_of};
use crate::protocol::{
    client_capabilities, default_server_capabilities, server_only_capabilities,
    DAEMON_PROTOCOL_NAME, DAEMON_PROTOCOL_VERSION, command_active_session_id, command_type_name,
    failure, line_of, opt_string, parse_supervisor_command_value, response_failure, response_line,
    response_success, session_selector, success, supervisor_line_envelope, wire_name, CommandKind,
    CommandView, DaemonCommand, DaemonCommandEnvelope, DaemonResponse, EnvelopeParseError,
    ResponseView,
};
use crate::text::{
    as_opt_str, concat2, concat3, concat4, copy_opt, drop_char, ends_with, has_suffix,
    is_empty_text, join, join_texts, lowercase, lowercase_of, opt_str, opt_text, same_text, texts,
    trim, trim_text, without_char,
};

verus! {

/// How long a worker may take to accept connections after its spawn.
pub const WORKER_SPAWN_CONNECT_TIMEOUT_MS: u64 = 15_000;

/// How long a routed command may take.
pub const ROUTE_TIMEOUT_MS: u64 = 30_000;

/// How long a routed command may take that waits for a turn.
pub const LONG_ROUTE_TIMEOUT_MS: u64 = 600_000;

/// How many unexpected exits in a row a worker is restarted after.
pub const MAX_CONSECUTIVE_FAILURES: u32 = 5;

/// The pause before the first restart.
pub const BASE_BACKOFF_MS: u64 = 250;

/// The longest pause before a restart.
pub const MAX_BACKOFF_MS: u64 = 30_000;

/// How often the process of an adopted worker is looked at.
pub const LIVENESS_POLL_MS: u64 = 1_000;

/// Where the supervisor listens and where it keeps its files.
#[derive(Debug, PartialEq, Eq)]
pub struct SupervisorOptions {
    pub socket_path: String,
    pub agent_dir: String,
}

// ---------------------------------------------------------------------------
// Watching workers
// ---------------------------------------------------------------------------

/// The pause before restart number `failures`: doubled for each failure before
/// it, up to seven times, and never longer than the longest pause.
pub open spec fn backoff_of(failures: nat) -> nat {
    let doublings = if failures - 1 < 7 {
        (failures - 1) as nat
    } else {
        7
    };
    let pause = BASE_BACKOFF_MS as nat * vstd::arithmetic::power2::pow2(doublings);
    if pause < MAX_BACKOFF_MS {
        pause
    } else {
        MAX_BACKOFF_MS as nat
    }
}

/// The pause before restart number `failures`.
pub fn backoff_ms(failures: u32) -> (r: u64)
    requires
        failures >= 1,
    ensures
        r == backoff_of(failures as nat),
{
    let doublings: u32 = if failures - 1 < 7 {
        failures - 1
    } else {
        7
    };
    let mut pause: u64 = BASE_BACKOFF_MS;
    let mut i: u32 = 0;
    proof {
        vstd::arithmetic::power2::lemma2_to64();
    }
    while i < doublings
        invariant
            i <= doublings <= 7,
            pause == BASE_BACKOFF_MS as nat * vstd::arithmetic::power2::pow2(i as nat),
            pause <= 32_000,
        decreases doublings - i,
    {
        proof {
            vstd::arithmetic::power2::lemma2_to64();
            vstd::arithmetic::power2::lemma_pow2_unfold((i + 1) as nat);
            if i == 0 {
            } else if i == 1 {
            } else if i == 2 {
            } else if i == 3 {
            } else if i == 4 {
            } else if i == 5 {
            } else {
                assert(i == 6);
            }
        }
        pause = pause * 2;
        i = i + 1;
    }
    if pause < MAX_BACKOFF_MS {
        pause
    } else {
        MAX_BACKOFF_MS
    }
}

/// What a worker's watcher does once the worker is gone.
#[derive(Debug, Clone, Copy, PartialEq, Eq, Structural)]
pub enum ExitDecision {
    /// The exit was asked for: stop watching.
    Stop,
    /// Too many failures in a row: mark the worker failed and drop it.
    GiveUp { failures: u32 },
    /// Restart after the pause.
    Restart { failures: u32, backoff_ms: u64 },
}

/// What is done about an exit after `failures` failures in a row.
pub open spec fn exit_decision(failures: u32, stopping: bool) -> ExitDecision {
    if stopping {
        ExitDecision::Stop
    } else if failures + 1 > MAX_CONSECUTIVE_FAILURES {
        ExitDecision::GiveUp { failures: (failures + 1) as u32 }
    } else {
        ExitDecision::Restart {
            failures: (failures + 1) as u32,
            backoff_ms: backoff_of((failures + 1) as nat) as u64,
        }
    }
}

/// What is done about the exit of a worker with `failures` failures in a row.
pub fn on_worker_exit(failures: u32, stopping: bool) -> (r: ExitDecision)
    requires
        failures < u32::MAX,
    ensures
        r == exit_decision(failures, stopping),
{
    if stopping {
        return ExitDecision::Stop;
    }
    let failures = failures + 1;
    if failures > MAX_CONSECUTIVE_FAILURES {
        ExitDecision::GiveUp { failures }
    } else {
        ExitDecision::Restart { failures, backoff_ms: backoff_ms(failures) }
    }
}

/// What a watcher waits for.
#[derive(Debug, Clone, Copy, PartialEq, Eq, Structural)]
pub enum WatchMode {
    /// The exit of the supervisor's own child process.
    Child,
    /// The end of a process it did not start; no process has number zero.
    Process { pid: u64 },
}

/// A watcher: what it waits for, and the failures in a row so far.
#[derive(Debug, Clone, Copy, PartialEq, Eq, Structural)]
pub struct Watch {
    pub mode: WatchMode,
    pub failures: u32,
}

/// What happened to a watched worker.
#[derive(Debug, Clone, Copy, PartialEq, Eq, Structural)]
pub enum WatchEvent {
    /// The child exited, or the process was seen to be gone.
    Gone,
    /// The process was seen to be alive.
    Alive,
    /// The relaunch came up as a child of the supervisor.
    Relaunched,
    /// The relaunch failed.
    RelaunchFailed,
}

/// What a watcher does next.
#[derive(Debug, Clone, Copy, PartialEq, Eq, Structural)]
pub enum WatchAction {
    /// Wait for what the mode names.
    Wait,
    /// Look at the process again after the pause.
    PollAfter { ms: u64 },
    /// Pause, then relaunch the worker.
    RelaunchAfter { ms: u64 },
    /// Mark the worker failed, drop it, and stop watching.
    GiveUp,
    /// Stop watching.
    Stop,
}

/// A watcher's next state and action. A watcher asked to stop stops; an
/// unexpected exit is restarted or given up on; a relaunch that came up clears
/// the failures, and one that failed is looked at again as a process that is
/// not there.
pub open spec fn watch_step(watch: Watch, event: WatchEvent, stopping: bool) -> (
    Watch,
    WatchAction,
) {
    match event {
        WatchEvent::Alive => (
            watch,
            if stopping {
                WatchAction::Stop
            } else {
                WatchAction::PollAfter { ms: LIVENESS_POLL_MS }
            },
        ),
        WatchEvent::Gone => match exit_decision(watch.failures, stopping) {
            ExitDecision::Stop => (watch, WatchAction::Stop),
            ExitDecision::GiveUp { failures } => (Watch { failures, ..watch }, WatchAction::GiveUp),
            ExitDecision::Restart { failures, backoff_ms } => (
                Watch { failures, ..watch },
                WatchAction::RelaunchAfter { ms: backoff_ms },
            ),
        },
        WatchEvent::Relaunched => (
            Watch { mode: WatchMode::Child, failures: 0 },
            WatchAction::Wait,
        ),
        WatchEvent::RelaunchFailed => (
            Watch { mode: WatchMode::Process { pid: 0 }, failures: watch.failures },
            WatchAction::Wait,
        ),
    }
}

/// A watcher's next state and action.
pub fn watch_worker(watch: &mut Watch, event: WatchEvent, stopping: bool) -> (r: WatchAction)
    requires
        old(watch).failures < u32::MAX,
    ensures
        (*final(watch), r) == watch_step(*old(watch), event, stopping),
{
    match event {
        WatchEvent::Alive => {
            if stopping {
                WatchAction::Stop
            } else {
                WatchAction::PollAfter { ms: LIVENESS_POLL_MS }
            }
        },
        WatchEvent::Gone => match on_worker_exit(watch.failures, stopping) {
            ExitDecision::Stop => WatchAction::Stop,
            ExitDecision::GiveUp { failures } => {
                watch.failures = failures;
                WatchAction::GiveUp
            },
            ExitDecision::Restart { failures, backoff_ms } => {
                watch.failures = failures;
                WatchAction::RelaunchAfter { ms: backoff_ms }
            },
        },
        WatchEvent::Relaunched => {
            watch.mode = WatchMode::Child;
            watch.failures = 0;
            WatchAction::Wait
        },
        WatchEvent::RelaunchFailed => {
            watch.mode = WatchMode::Process { pid: 0 };
            WatchAction::Wait
        },
    }
}

/// The watcher after `n` exits in a row, each followed by a failed relaunch.
pub open spec fn after_failed_relaunches(watch: Watch, n: nat) -> Watch
    decreases n,
{
    if n == 0 {
        watch
    } else {
        let exited = watch_step(
            after_failed_relaunches(watch, (n - 1) as nat),
            WatchEvent::Gone,
            false,
        ).0;
        watch_step(exited, WatchEvent::RelaunchFailed, false).0
    }
}

/// Restarts are bounded: from a watcher without failures, the first five exits
/// are restarted however their relaunches fare, and the sixth in a row without
/// a relaunch that came up is given up on.
pub proof fn law_restarts_are_bounded(mode: WatchMode, n: nat)
    requires
        n <= MAX_CONSECUTIVE_FAILURES,
    ensures
        ({
            let watch = after_failed_relaunches(Watch { mode, failures: 0 }, n);
            let action = watch_step(watch, WatchEvent::Gone, false).1;
            &&& watch.failures == n
            &&& n < MAX_CONSECUTIVE_FAILURES ==> action == (WatchAction::RelaunchAfter {
                ms: backoff_of(n + 1) as u64,
            })
            &&& n == MAX_CONSECUTIVE_FAILURES ==> action == WatchAction::GiveUp
        }),
    decreases n,
{
    if n > 0 {
        law_restarts_are_bounded(mode, (n - 1) as nat);
    }
}

/// A relaunch that came up starts the count afresh, and a watcher asked to
/// stop never restarts.
pub proof fn law_watch_resets_and_stops(watch: Watch, event: WatchEvent)
    ensures
        watch_step(watch, WatchEvent::Relaunched, false).0.failures == 0,
        !(watch_step(watch, event, true).1 is RelaunchAfter),
        !(watch_step(watch, event, true).1 is GiveUp),
{
}

/// The pauses grow with the failures and stay between the first and the
/// longest one.
pub proof fn law_backoff_grows(failures: nat)
    requires
        failures >= 1,
    ensures
        BASE_BACKOFF_MS <= backoff_of(failures) <= MAX_BACKOFF_MS,
        backoff_of(failures) <= backoff_of(failures + 1),
{
    vstd::arithmetic::power2::lemma2_to64();
    if failures <= 7 {
        if failures == 1 {
        } else if failures == 2 {
        } else if failures == 3 {
        } else if failures == 4 {
        } else if failures == 5 {
        } else if failures == 6 {
        } else {
            assert(failures == 7);
        }
    }
}

/// Whether the worker socket came up, out of one look at it.
#[derive(Debug, PartialEq, Eq)]
pub enum SpawnWait {
    Up,
    TimedOut(String),
    LookAgain,
}

/// Whether a wait is one look at a spawned worker's socket.
pub open spec fn is_spawn_look(
    wait: SpawnWait,
    worker_id: Seq<char>,
    connected: bool,
    deadline_passed: bool,
) -> bool {
    &&& connected <==> wait is Up
    &&& !connected && !deadline_passed <==> wait is LookAgain
    &&& wait matches SpawnWait::TimedOut(message) ==> message@ == "session worker "@ + worker_id
        + " did not come up in time"@
}

/// What one look at a spawned worker's socket decides.
pub fn await_worker_socket(worker_id: &str, connected: bool, deadline_passed: bool) -> (r:
    SpawnWait)
    ensures
        is_spawn_look(r, worker_id@, connected, deadline_passed),
{
    if connected {
        SpawnWait::Up
    } else if deadline_passed {
        SpawnWait::TimedOut(concat3("session worker ", worker_id, " did not come up in time"))
    } else {
        SpawnWait::LookAgain
    }
}

// ---------------------------------------------------------------------------
// Worker descriptors
// ---------------------------------------------------------------------------

/// Where a worker is in its life.
#[derive(Debug, Clone, Copy, PartialEq, Eq, Structural)]
pub enum DaemonWorkerLifecycle {
    Starting,
    Ready,
    Recovering,
    Stopping,
    Failed,
}

/// The create command a worker is relaunched from: the session file it opens,
/// whether it has none, and its other members.
#[derive(Debug, PartialEq, Eq)]
pub struct DurableCreate {
    pub session_path: Option<String>,
    pub no_session: Option<bool>,
    pub rest: Json,
}

/// What the supervisor keeps of a worker across its own restarts.
#[derive(Debug, PartialEq, Eq)]
pub struct WorkerDescriptor {
    pub version: u64,
    pub worker_id: String,
    pub pid: u64,
    pub socket_path: String,
    pub recovery_journal_path: String,
    pub supervisor_socket_path: String,
    pub authentication_token: String,
    pub worker_instance_id: Option<String>,
    pub root_active_session_id: String,
    pub owner_client_id: Option<String>,
    pub root_session_id: Option<String>,
    pub session_file: Option<String>,
    pub session_dir: Option<String>,
    pub created_at: String,
    pub updated_at: String,
    pub lifecycle: DaemonWorkerLifecycle,
    pub create_command: DurableCreate,
    pub consecutive_failures: u64,
    pub last_failure_at: Option<String>,
    pub last_error: Option<String>,
}

/// The mathematical descriptor behind a [`WorkerDescriptor`].
#[verifier::ext_equal]
pub struct DescriptorView {
    pub version: u64,
    pub worker_id: Seq<char>,
    pub pid: u64,
    pub socket_path: Seq<char>,
    pub recovery_journal_path: Seq<char>,
    pub supervisor_socket_path: Seq<char>,
    pub authentication_token: Seq<char>,
    pub worker_instance_id: Option<Seq<char>>,
    pub root_active_session_id: Seq<char>,
    pub owner_client_id: Option<Seq<char>>,
    pub root_session_id: Option<Seq<char>>,
    pub session_file: Option<Seq<char>>,
    pub session_dir: Option<Seq<char>>,
    pub created_at: Seq<char>,
    pub updated_at: Seq<char>,
    pub lifecycle: DaemonWorkerLifecycle,
    pub create_session_path: Option<Seq<char>>,
    pub create_no_session: Option<bool>,
    pub create_rest: JsonView,
    pub consecutive_failures: u64,
    pub last_failure_at: Option<Seq<char>>,
    pub last_error: Option<Seq<char>>,
}

impl View for WorkerDescriptor {
    type V = DescriptorView;

    open spec fn view(&self) -> DescriptorView {
        DescriptorView {
            version: self.version,
            worker_id: self.worker_id@,
            pid: self.pid,
            socket_path: self.socket_path@,
            recovery_journal_path: self.recovery_journal_path@,
            supervisor_socket_path: self.supervisor_socket_path@,
            authentication_token: self.authentication_token@,
            worker_instance_id: opt_text(self.worker_instance_id),
            root_active_session_id: self.root_active_session_id@,
            owner_client_id: opt_text(self.owner_client_id),
            root_session_id: opt_text(self.root_session_id),
            session_file: opt_text(self.session_file),
            session_dir: opt_text(self.session_dir),
            created_at: self.created_at@,
            updated_at: self.updated_at@,
            lifecycle: self.lifecycle,
            create_session_path: opt_text(self.create_command.session_path),
            create_no_session: self.create_command.no_session,
            create_rest: self.create_command.rest@,
            consecutive_failures: self.consecutive_failures,
            last_failure_at: opt_text(self.last_failure_at),
            last_error: opt_text(self.last_error),
        }
    }
}

/// What a create command asks of a launch.
#[derive(Debug, PartialEq, Eq)]
pub struct LaunchPlan {
    pub cwd: String,
    pub session_dir: Option<String>,
    pub script: Option<String>,
    pub name: Option<String>,
    pub session_path: Option<String>,
    pub no_session: Option<bool>,
    pub continue_recent: bool,
}

/// The mathematical plan behind a [`LaunchPlan`].
#[verifier::ext_equal]
pub struct PlanView {
    pub cwd: Seq<char>,
    pub session_dir: Option<Seq<char>>,
    pub script: Option<Seq<char>>,
    pub name: Option<Seq<char>>,
    pub session_path: Option<Seq<char>>,
    pub no_session: Option<bool>,
    pub continue_recent: bool,
}

impl View for LaunchPlan {
    type V = PlanView;

    open spec fn view(&self) -> PlanView {
        PlanView {
            cwd: self.cwd@,
            session_dir: opt_text(self.session_dir),
            script: opt_text(self.script),
            name: opt_text(self.name),
            session_path: opt_text(self.session_path),
            no_session: self.no_session,
            continue_recent: self.continue_recent,
        }
    }
}

/// The text of a member of a create command's configuration.
pub open spec fn config_str(wire: JsonView, key: Seq<char>) -> Option<Seq<char>> {
    match wire.get("config"@) {
        Some(config) => config.get_str(key),
        None => None,
    }
}

/// The plan of a create command: the working directory is the configured one,
/// else the supervisor's own, else the root.
pub open spec fn plan_of(wire: JsonView, current_dir: Option<Seq<char>>) -> PlanView {
    PlanView {
        cwd: match config_str(wire, "cwd"@) {
            Some(cwd) => cwd,
            None => match current_dir {
                Some(cwd) => cwd,
                None => "/"@,
            },
        },
        session_dir: config_str(wire, "sessionDir"@),
        script: config_str(wire, "script"@),
        name: wire.get_str("name"@),
        session_path: wire.get_str("sessionPath"@),
        no_session: wire.get_bool("noSession"@),
        continue_recent: wire.get_bool("continueRecent"@) == Some(true),
    }
}

fn config_string(wire: &Json, key: &str) -> (r: Option<String>)
    ensures
        opt_text(r) == config_str(wire@, key@),
{
    match wire.get("config") {
        Some(config) => config.get_string(key),
        None => None,
    }
}

/// Whether a plan, or its refusal, is that of the launch of a command.
pub open spec fn is_planned(
    result: Result<LaunchPlan, String>,
    create: DaemonCommand,
    current_dir: Option<Seq<char>>,
) -> bool {
    ({
        let plan = plan_of(create.wire@, current_dir);
        match result {
            Ok(got) => create.kind == CommandKind::Create && got@ == plan && !(plan.no_session
                == Some(true) && plan.session_path is Some),
            Err(message) => if create.kind != CommandKind::Create {
                message@ == "launch_worker requires a create command"@
            } else {
                plan.no_session == Some(true) && plan.session_path is Some && message@
                    == "Session cannot be both no-session and session-pathed"@
            },
        }
    })
}

/// Plan the launch of a create command. Any other command is refused, and so
/// is a create that asks for a session file and for none.
pub fn plan_launch(create: &DaemonCommand, current_dir: Option<&str>) -> (r: Result<
    LaunchPlan,
    String,
>)
    ensures
        is_planned(r, *create, opt_str(current_dir)),
{
    if create.kind != CommandKind::Create {
        return Err("launch_worker requires a create command".to_owned());
    }
    let wire = &create.wire;
    let cwd = match config_string(wire, "cwd") {
        Some(cwd) => cwd,
        None => match current_dir {
            Some(cwd) => cwd.to_owned(),
            None => "/".to_owned(),
        },
    };
    let session_path = wire.get_string("sessionPath");
    let no_session = wire.get_bool("noSession");
    if no_session == Some(true) && session_path.is_some() {
        return Err("Session cannot be both no-session and session-pathed".to_owned());
    }
    Ok(
        LaunchPlan {
            cwd,
            session_dir: config_string(wire, "sessionDir"),
            script: config_string(wire, "script"),
            name: wire.get_string("name"),
            session_path,
            no_session,
            continue_recent: wire.get_bool("continueRecent") == Some(true),
        },
    )
}

/// Whether a verdict says whether a launch that asks for the recent session goes on.
pub open spec fn is_recent_verdict(
    result: Result<(), String>,
    plan: LaunchPlan,
    recent_found: bool,
) -> bool {
    match result {
        Ok(_) => !plan.continue_recent || recent_found,
        Err(message) => plan.continue_recent && !recent_found && message@
            == "No recent session found for "@ + plan.cwd@,
    }
}

/// Whether a launch that asks for the recent session goes on.
pub fn check_recent_session(plan: &LaunchPlan, recent_found: bool) -> (r: Result<(), String>)
    ensures
        is_recent_verdict(r, *plan, recent_found),
{
    if plan.continue_recent && !recent_found {
        Err(concat2("No recent session found for ", plan.cwd.as_str()))
    } else {
        Ok(())
    }
}

/// The members of the durable create command.
pub open spec fn durable_rest(plan: PlanView) -> JsonView {
    JsonView::object().field("cwd"@, JsonView::Str(plan.cwd)).field_opt(
        "sessionDir"@,
        opt_string(plan.session_dir),
    ).field_opt("name"@, opt_string(plan.name)).field_opt("script"@, opt_string(plan.script))
}

/// What a new worker is given: its id and socket, its secrets, the client that
/// owns it, the supervisor's socket and descriptor directory, and the time.
pub struct LaunchFacts {
    pub worker_id: String,
    pub worker_socket: String,
    pub descriptor_dir: String,
    pub supervisor_socket: String,
    pub authentication_token: String,
    pub worker_instance_id: String,
    pub owner_client_id: Option<String>,
    pub now: String,
}

impl LaunchFacts {
    /// What a new worker is given, with fresh secrets.
    pub fn fresh(
        worker_id: String,
        worker_socket: String,
        descriptor_dir: String,
        supervisor_socket: String,
        owner_client_id: Option<String>,
        now: String,
    ) -> (r: LaunchFacts)
        ensures
            r.worker_id == worker_id,
            r.worker_socket == worker_socket,
            r.descriptor_dir == descriptor_dir,
            r.supervisor_socket == supervisor_socket,
            r.owner_client_id == owner_client_id,
            r.now == now,
            crate::ids::is_id_text(r.authentication_token@),
            crate::ids::is_id_text(r.worker_instance_id@),
    {
        LaunchFacts {
            worker_id,
            worker_socket,
            descriptor_dir,
            supervisor_socket,
            authentication_token: fresh_id(),
            worker_instance_id: fresh_id(),
            owner_client_id,
            now,
        }
    }
}

/// The descriptor of a worker that is about to be spawned.
pub open spec fn new_descriptor(plan: PlanView, facts: LaunchFacts) -> DescriptorView {
    DescriptorView {
        version: 2,
        worker_id: facts.worker_id@,
        pid: 0,
        socket_path: facts.worker_socket@,
        recovery_journal_path: crate::paths::joined(
            facts.descriptor_dir@,
            facts.worker_id@ + ".recovery.jsonl"@,
        ),
        supervisor_socket_path: facts.supervisor_socket@,
        authentication_token: facts.authentication_token@,
        worker_instance_id: Some(facts.worker_instance_id@),
        root_active_session_id: facts.worker_id@,
        owner_client_id: opt_text(facts.owner_client_id),
        root_session_id: None,
        session_file: plan.session_path,
        session_dir: plan.session_dir,
        created_at: facts.now@,
        updated_at: facts.now@,
        lifecycle: DaemonWorkerLifecycle::Starting,
        create_session_path: plan.session_path,
        create_no_session: plan.no_session,
        create_rest: durable_rest(plan),
        consecutive_failures: 0,
        last_failure_at: None,
        last_error: None,
    }
}

/// The descriptor of a worker that is about to be spawned.
pub fn launch_descriptor(plan: &LaunchPlan, facts: &LaunchFacts) -> (r: WorkerDescriptor)
    ensures
        r@ == new_descriptor(plan@, *facts),
{
    let rest = Json::object().field("cwd", Json::string(plan.cwd.as_str())).field_opt_str(
        "sessionDir",
        as_opt_str(&plan.session_dir),
    ).field_opt_str("name", as_opt_str(&plan.name)).field_opt_str(
        "script",
        as_opt_str(&plan.script),
    );
    WorkerDescriptor {
        version: 2,
        worker_id: facts.worker_id.clone(),
        pid: 0,
        socket_path: facts.worker_socket.clone(),
        recovery_journal_path: crate::paths::join_path(
            facts.descriptor_dir.as_str(),
            concat2(facts.worker_id.as_str(), ".recovery.jsonl").as_str(),
        ),
        supervisor_socket_path: facts.supervisor_socket.clone(),
        authentication_token: facts.authentication_token.clone(),
        worker_instance_id: Some(facts.worker_instance_id.clone()),
        root_active_session_id: facts.worker_id.clone(),
        owner_client_id: copy_opt(&facts.owner_client_id),
        root_session_id: None,
        session_file: copy_opt(&plan.session_path),
        session_dir: copy_opt(&plan.session_dir),
        created_at: facts.now.clone(),
        updated_at: facts.now.clone(),
        lifecycle: DaemonWorkerLifecycle::Starting,
        create_command: DurableCreate {
            session_path: copy_opt(&plan.session_path),
            no_session: plan.no_session,
            rest,
        },
        consecutive_failures: 0,
        last_failure_at: None,
        last_error: None,
    }
}

/// The descriptor of a worker whose create succeeded: ready, with the session
/// it reported. The durable create command reopens the reported file.
pub open spec fn created_descriptor(before: DescriptorView, data: Option<JsonView>) -> DescriptorView {
    let ready = DescriptorView { lifecycle: DaemonWorkerLifecycle::Ready, ..before };
    match data {
        None => ready,
        Some(summary) => {
            let known = DescriptorView {
                root_session_id: summary.get_str("sessionId"@),
                ..ready
            };
            match summary.get_str("sessionFile"@) {
                None => known,
                Some(file) => DescriptorView {
                    session_file: Some(file),
                    create_session_path: Some(file),
                    ..known
                },
            }
        },
    }
}

/// Take a worker's answer to its first create: a refusal leaves the descriptor
/// alone and gives the error.
pub fn settle_launch(descriptor: &mut WorkerDescriptor, response: &DaemonResponse) -> (r: Result<
    (),
    String,
>)
    ensures
        match r {
            Ok(_) => response.success && final(descriptor)@ == created_descriptor(
                old(descriptor)@,
                opt_view(response.data),
            ),
            Err(message) => !response.success && final(descriptor)@ == old(descriptor)@ && message@
                == "session worker create failed: "@ + or_empty(opt_text(response.error)),
        },
{
    if !response.success {
        let error = match &response.error {
            Some(error) => error.clone(),
            None => String::new(),
        };
        return Err(concat2("session worker create failed: ", error.as_str()));
    }
    descriptor.lifecycle = DaemonWorkerLifecycle::Ready;
    match &response.data {
        None => {},
        Some(summary) => {
            descriptor.root_session_id = summary.get_string("sessionId");
            match summary.get_str("sessionFile") {
                None => {},
                Some(file) => {
                    descriptor.session_file = Some(file.to_owned());
                    descriptor.create_command.session_path = Some(file.to_owned());
                },
            }
        },
    }
    Ok(())
}

/// What a relaunched worker's answer to its create decides.
#[derive(Debug, PartialEq, Eq)]
pub enum RelaunchVerdict {
    /// The worker is ready again.
    Ready,
    /// A shutdown came in between: stop the fresh worker and fail.
    StopFresh(String),
    /// The create failed.
    Failed(String),
}

/// Whether a descriptor and a verdict are what the answer of a relaunched worker
/// gives.
pub open spec fn is_relaunched(
    before: DescriptorView,
    after: DescriptorView,
    verdict: RelaunchVerdict,
    response: DaemonResponse,
    stopping: bool,
) -> bool {
    match verdict {
        RelaunchVerdict::StopFresh(message) => stopping && message@
            == "supervisor is shutting down"@ && after == before,
        RelaunchVerdict::Failed(message) => !stopping && !response.success && message@
            == "worker create failed on relaunch: "@ + or_empty(opt_text(response.error))
            && after == before,
        RelaunchVerdict::Ready => !stopping && response.success && after == (
        DescriptorView {
            lifecycle: DaemonWorkerLifecycle::Ready,
            consecutive_failures: 0,
            ..before
        }),
    }
}

/// Take a relaunched worker's answer to its create. Only a worker that is not
/// being stopped and whose create succeeded is ready, with no failures.
pub fn settle_relaunch(
    descriptor: &mut WorkerDescriptor,
    response: &DaemonResponse,
    stopping: bool,
) -> (r: RelaunchVerdict)
    ensures
        is_relaunched(old(descriptor)@, final(descriptor)@, r, *response, stopping),
{
    if stopping {
        return RelaunchVerdict::StopFresh("supervisor is shutting down".to_owned());
    }
    if !response.success {
        let error = match &response.error {
            Some(error) => error.clone(),
            None => String::new(),
        };
        return RelaunchVerdict::Failed(
            concat2("worker create failed on relaunch: ", error.as_str()),
        );
    }
    descriptor.lifecycle = DaemonWorkerLifecycle::Ready;
    descriptor.consecutive_failures = 0;
    RelaunchVerdict::Ready
}

/// Where the launch of a worker is.
#[derive(Debug, Clone, Copy, PartialEq, Eq, Structural)]
pub enum LaunchStage {
    /// Its process is started.
    Spawning,
    /// Its socket is connected.
    Connecting,
    /// It is asked to create its session.
    Creating,
    Over,
}

/// What happened to a worker that is launched.
#[derive(Debug, PartialEq, Eq)]
pub enum LaunchEvent {
    Spawned(Result<(), String>),
    Connected(Result<(), String>),
    Created(Result<DaemonResponse, String>),
}

/// What is done next for a worker that is launched.
#[derive(Debug, PartialEq, Eq)]
pub enum LaunchAction {
    Spawn,
    Connect,
    Create,
    /// Keep its descriptor, and watch it.
    Register,
    Fail(String),
    /// Remove its descriptor, then fail.
    RemoveDescriptor(String),
    /// Kill the process that was started, then fail.
    Kill(String),
    /// Ask the worker to shut down, kill its process, then fail.
    ShutDown(String),
    /// The event does not fit: nothing is done.
    Ignore,
}

/// The mathematical action behind a [`LaunchAction`].
#[verifier::ext_equal]
pub enum LaunchActionView {
    Spawn,
    Connect,
    Create,
    Register,
    Fail(Seq<char>),
    RemoveDescriptor(Seq<char>),
    Kill(Seq<char>),
    ShutDown(Seq<char>),
    Ignore,
}

impl View for LaunchAction {
    type V = LaunchActionView;

    open spec fn view(&self) -> LaunchActionView {
        match self {
            LaunchAction::Spawn => LaunchActionView::Spawn,
            LaunchAction::Connect => LaunchActionView::Connect,
            LaunchAction::Create => LaunchActionView::Create,
            LaunchAction::Register => LaunchActionView::Register,
            LaunchAction::Fail(error) => LaunchActionView::Fail(error@),
            LaunchAction::RemoveDescriptor(error) => LaunchActionView::RemoveDescriptor(error@),
            LaunchAction::Kill(error) => LaunchActionView::Kill(error@),
            LaunchAction::ShutDown(error) => LaunchActionView::ShutDown(error@),
            LaunchAction::Ignore => LaunchActionView::Ignore,
        }
    }
}

/// The next stage, action and descriptor of a first launch: any failure ends
/// it, and a create that was refused takes the descriptor away again.
pub open spec fn launch_step(
    stage: LaunchStage,
    descriptor: DescriptorView,
    event: LaunchEvent,
) -> (LaunchStage, LaunchActionView, DescriptorView) {
    match (stage, event) {
        (LaunchStage::Spawning, LaunchEvent::Spawned(Ok(_))) => (
            LaunchStage::Connecting,
            LaunchActionView::Connect,
            descriptor,
        ),
        (LaunchStage::Spawning, LaunchEvent::Spawned(Err(error))) => (
            LaunchStage::Over,
            LaunchActionView::Fail(error@),
            descriptor,
        ),
        (LaunchStage::Connecting, LaunchEvent::Connected(Ok(_))) => (
            LaunchStage::Creating,
            LaunchActionView::Create,
            descriptor,
        ),
        (LaunchStage::Connecting, LaunchEvent::Connected(Err(error))) => (
            LaunchStage::Over,
            LaunchActionView::Fail(error@),
            descriptor,
        ),
        (LaunchStage::Creating, LaunchEvent::Created(Err(error))) => (
            LaunchStage::Over,
            LaunchActionView::Fail(error@),
            descriptor,
        ),
        (LaunchStage::Creating, LaunchEvent::Created(Ok(response))) => if response.success {
            (
                LaunchStage::Over,
                LaunchActionView::Register,
                created_descriptor(descriptor, opt_view(response.data)),
            )
        } else {
            (
                LaunchStage::Over,
                LaunchActionView::RemoveDescriptor(
                    "session worker create failed: "@ + or_empty(opt_text(response.error)),
                ),
                descriptor,
            )
        },
        _ => (stage, LaunchActionView::Ignore, descriptor),
    }
}

/// Take what happened to a worker that is launched the first time.
pub fn launch_worker(
    stage: &mut LaunchStage,
    descriptor: &mut WorkerDescriptor,
    event: LaunchEvent,
) -> (r: LaunchAction)
    ensures
        (*final(stage), r@, final(descriptor)@) == launch_step(
            *old(stage),
            old(descriptor)@,
            event,
        ),
{
    match (*stage, event) {
        (LaunchStage::Spawning, LaunchEvent::Spawned(Ok(_))) => {
            *stage = LaunchStage::Connecting;
            LaunchAction::Connect
        },
        (LaunchStage::Connecting, LaunchEvent::Connected(Ok(_))) => {
            *stage = LaunchStage::Creating;
            LaunchAction::Create
        },
        (LaunchStage::Creating, LaunchEvent::Created(Ok(response))) => {
            *stage = LaunchStage::Over;
            match settle_launch(descriptor, &response) {
                Ok(_) => LaunchAction::Register,
                Err(error) => LaunchAction::RemoveDescriptor(error),
            }
        },
        (LaunchStage::Spawning, LaunchEvent::Spawned(Err(error)))
        | (LaunchStage::Connecting, LaunchEvent::Connected(Err(error)))
        | (LaunchStage::Creating, LaunchEvent::Created(Err(error))) => {
            *stage = LaunchStage::Over;
            LaunchAction::Fail(error)
        },
        _ => LaunchAction::Ignore,
    }
}

/// How a relaunch begins.
pub open spec fn relaunch_begun(stopping: bool) -> (LaunchStage, LaunchActionView) {
    if stopping {
        (LaunchStage::Over, LaunchActionView::Fail("supervisor is shutting down"@))
    } else {
        (LaunchStage::Spawning, LaunchActionView::Spawn)
    }
}

/// How a relaunch begins: a supervisor that stops spawns nothing.
pub fn begin_relaunch(stopping: bool) -> (r: (LaunchStage, LaunchAction))
    ensures
        (r.0, r.1@) == relaunch_begun(stopping),
{
    if stopping {
        (LaunchStage::Over, LaunchAction::Fail("supervisor is shutting down".to_owned()))
    } else {
        (LaunchStage::Spawning, LaunchAction::Spawn)
    }
}

/// The next stage, action and descriptor of a relaunch: a process that was
/// started and cannot be connected is killed, a worker that came up while the
/// supervisor stops is shut down and killed, and a create that was refused
/// fails.
pub open spec fn relaunch_step(
    stage: LaunchStage,
    descriptor: DescriptorView,
    event: LaunchEvent,
    stopping: bool,
) -> (LaunchStage, LaunchActionView, DescriptorView) {
    match (stage, event) {
        (LaunchStage::Spawning, LaunchEvent::Spawned(Ok(_))) => (
            LaunchStage::Connecting,
            LaunchActionView::Connect,
            descriptor,
        ),
        (LaunchStage::Spawning, LaunchEvent::Spawned(Err(error))) => (
            LaunchStage::Over,
            LaunchActionView::Fail(error@),
            descriptor,
        ),
        (LaunchStage::Connecting, LaunchEvent::Connected(Ok(_))) => (
            LaunchStage::Creating,
            LaunchActionView::Create,
            descriptor,
        ),
        (LaunchStage::Connecting, LaunchEvent::Connected(Err(error))) => (
            LaunchStage::Over,
            LaunchActionView::Kill(error@),
            descriptor,
        ),
        (LaunchStage::Creating, LaunchEvent::Created(Err(error))) => (
            LaunchStage::Over,
            LaunchActionView::Fail(error@),
            descriptor,
        ),
        (LaunchStage::Creating, LaunchEvent::Created(Ok(response))) => if stopping {
            (
                LaunchStage::Over,
                LaunchActionView::ShutDown("supervisor is shutting down"@),
                descriptor,
            )
        } else if response.success {
            (
                LaunchStage::Over,
                LaunchActionView::Register,
                DescriptorView {
                    lifecycle: DaemonWorkerLifecycle::Ready,
                    consecutive_failures: 0,
                    ..descriptor
                },
            )
        } else {
            (
                LaunchStage::Over,
                LaunchActionView::Fail(
                    "worker create failed on relaunch: "@ + or_empty(opt_text(response.error)),
                ),
                descriptor,
            )
        },
        _ => (stage, LaunchActionView::Ignore, descriptor),
    }
}

/// Take what happened to a worker that is launched again.
pub fn relaunch_worker(
    stage: &mut LaunchStage,
    descriptor: &mut WorkerDescriptor,
    event: LaunchEvent,
    stopping: bool,
) -> (r: LaunchAction)
    ensures
        (*final(stage), r@, final(descriptor)@) == relaunch_step(
            *old(stage),
            old(descriptor)@,
            event,
            stopping,
        ),
{
    match (*stage, event) {
        (LaunchStage::Spawning, LaunchEvent::Spawned(Ok(_))) => {
            *stage = LaunchStage::Connecting;
            LaunchAction::Connect
        },
        (LaunchStage::Connecting, LaunchEvent::Connected(Ok(_))) => {
            *stage = LaunchStage::Creating;
            LaunchAction::Create
        },
        (LaunchStage::Connecting, LaunchEvent::Connected(Err(error))) => {
            *stage = LaunchStage::Over;
            LaunchAction::Kill(error)
        },
        (LaunchStage::Creating, LaunchEvent::Created(Ok(response))) => {
            *stage = LaunchStage::Over;
            match settle_relaunch(descriptor, &response, stopping) {
                RelaunchVerdict::Ready => LaunchAction::Register,
                RelaunchVerdict::StopFresh(error) => LaunchAction::ShutDown(error),
                RelaunchVerdict::Failed(error) => LaunchAction::Fail(error),
            }
        },
        (LaunchStage::Spawning, LaunchEvent::Spawned(Err(error)))
        | (LaunchStage::Creating, LaunchEvent::Created(Err(error))) => {
            *stage = LaunchStage::Over;
            LaunchAction::Fail(error)
        },
        _ => LaunchAction::Ignore,
    }
}

/// Only after a create that succeeded is a worker registered; any other step
/// leaves its descriptor as it was, and nothing follows the end of a launch.
pub proof fn law_only_created_workers_are_kept(
    stage: LaunchStage,
    descriptor: DescriptorView,
    event: LaunchEvent,
    stopping: bool,
)
    ensures
        launch_step(stage, descriptor, event).1 is Register ==> (event matches LaunchEvent::Created(
            Ok(response),
        ) && response.success),
        relaunch_step(stage, descriptor, event, stopping).1 is Register ==> !stopping && (
        event matches LaunchEvent::Created(Ok(response)) && response.success),
        !(launch_step(stage, descriptor, event).1 is Register) ==> launch_step(
            stage,
            descriptor,
            event,
        ).2 == descriptor,
        !(relaunch_step(stage, descriptor, event, stopping).1 is Register) ==> relaunch_step(
            stage,
            descriptor,
            event,
            stopping,
        ).2 == descriptor,
        launch_step(LaunchStage::Over, descriptor, event).1 is Ignore,
        relaunch_step(LaunchStage::Over, descriptor, event, stopping).1 is Ignore,
{
}

/// How the worker of an earlier supervisor is taken up.
#[derive(Debug, Clone, Copy, PartialEq, Eq, Structural)]
pub enum AdoptAction {
    Connect,
    Relaunch,
}

/// How the worker of an earlier supervisor is taken up.
pub open spec fn adoption(alive: bool) -> AdoptAction {
    if alive {
        AdoptAction::Connect
    } else {
        AdoptAction::Relaunch
    }
}

/// How the worker of an earlier supervisor is taken up: a live one is connected,
/// and a dead one launched again from its create command.
pub fn adopt_worker(alive: bool) -> (r: AdoptAction)
    ensures
        r == adoption(alive),
{
    if alive {
        AdoptAction::Connect
    } else {
        AdoptAction::Relaunch
    }
}

/// What becomes of a worker that was to be taken up.
pub open spec fn watch_of_adopted(pid: u64, taken: Result<(), String>) -> Option<Watch> {
    if taken is Ok {
        Some(Watch { mode: WatchMode::Process { pid }, failures: 0 })
    } else {
        None
    }
}

/// What becomes of a worker that was to be taken up: one that was connected or
/// relaunched is kept, and watched by the process that its descriptor named when
/// it was read; any other is dropped.
pub fn adopted_watch(pid: u64, taken: &Result<(), String>) -> (r: Option<Watch>)
    ensures
        r == watch_of_adopted(pid, *taken),
{
    match taken {
        Ok(_) => Some(Watch { mode: WatchMode::Process { pid }, failures: 0 }),
        Err(_) => None,
    }
}

/// A worker relaunched from its descriptor reopens the session file that its
/// first create reported.
pub proof fn law_relaunch_reopens_the_session(before: DescriptorView, data: Option<JsonView>)
    ensures
        created_descriptor(before, data).lifecycle == DaemonWorkerLifecycle::Ready,
        data is Some && data->0.get_str("sessionFile"@) is Some ==> created_descriptor(
            before,
            data,
        ).create_session_path == data->0.get_str("sessionFile"@),
        created_descriptor(before, data).worker_id == before.worker_id,
        created_descriptor(before, data).authentication_token == before.authentication_token,
{
}

/// How a worker process is started: its directory, script and session
/// directory.
#[derive(Debug, PartialEq, Eq)]
pub struct WorkerLaunch {
    pub cwd: String,
    pub script: Option<String>,
    pub session_dir: Option<String>,
}

/// Whether a launch is how a worker's process is started.
pub open spec fn is_launch(launch: WorkerLaunch, descriptor: DescriptorView) -> bool {
    &&& launch.cwd@ == match descriptor.create_rest.get_str("cwd"@) {
        Some(cwd) => cwd,
        None => "/"@,
    }
    &&& opt_text(launch.script) == descriptor.create_rest.get_str("script"@)
    &&& opt_text(launch.session_dir) == descriptor.session_dir
}

/// How a worker's process is started, out of its descriptor.
pub fn worker_launch(descriptor: &WorkerDescriptor) -> (r: WorkerLaunch)
    ensures
        is_launch(r, descriptor@),
{
    WorkerLaunch {
        cwd: match descriptor.create_command.rest.get_str("cwd") {
            Some(cwd) => cwd.to_owned(),
            None => "/".to_owned(),
        },
        script: descriptor.create_command.rest.get_string("script"),
        session_dir: copy_opt(&descriptor.session_dir),
    }
}

/// A descriptor whose process was spawned.
pub fn mark_spawned(descriptor: &mut WorkerDescriptor, pid: u64)
    ensures
        final(descriptor)@ == (DescriptorView {
            pid,
            lifecycle: DaemonWorkerLifecycle::Starting,
            ..old(descriptor)@
        }),
{
    descriptor.pid = pid;
    descriptor.lifecycle = DaemonWorkerLifecycle::Starting;
}

/// A descriptor whose worker was given up on.
pub fn mark_failed(descriptor: &mut WorkerDescriptor, now: &str)
    ensures
        final(descriptor)@ == (DescriptorView {
            lifecycle: DaemonWorkerLifecycle::Failed,
            last_failure_at: Some(now@),
            ..old(descriptor)@
        }),
{
    descriptor.lifecycle = DaemonWorkerLifecycle::Failed;
    descriptor.last_failure_at = Some(now.to_owned());
}

// ---------------------------------------------------------------------------
// Worker connections
// ---------------------------------------------------------------------------

/// Which clients a worker's frame reaches.
#[derive(Debug, PartialEq, Eq)]
pub enum ClientRouting {
    /// Every connected client.
    Broadcast,
    /// The clients attached to the session.
    AttachedSession { active_session_id: String },
}

/// The mathematical routing behind a [`ClientRouting`].
#[verifier::ext_equal]
pub enum RoutingView {
    Broadcast,
    AttachedSession { active_session_id: Seq<char> },
}

impl View for ClientRouting {
    type V = RoutingView;

    open spec fn view(&self) -> RoutingView {
        match self {
            ClientRouting::Broadcast => RoutingView::Broadcast,
            ClientRouting::AttachedSession {
                active_session_id,
            } => RoutingView::AttachedSession { active_session_id: active_session_id@ },
        }
    }
}

/// What the supervisor does with one frame of a worker.
#[derive(Debug, PartialEq, Eq)]
pub enum FrameRoute {
    Ignore,
    /// Answer the pending request, if there still is one.
    Reply { request_id: String, response: DaemonResponse },
    /// Send the payload on to clients.
    Forward { routing: ClientRouting, payload: Json },
}

/// The mathematical route behind a [`FrameRoute`].
#[verifier::ext_equal]
pub enum FrameRouteView {
    Ignore,
    Reply { request_id: Seq<char>, response: ResponseView },
    Forward { routing: RoutingView, payload: JsonView },
}

impl View for FrameRoute {
    type V = FrameRouteView;

    open spec fn view(&self) -> FrameRouteView {
        match self {
            FrameRoute::Ignore => FrameRouteView::Ignore,
            FrameRoute::Reply { request_id, response } => FrameRouteView::Reply {
                request_id: request_id@,
                response: response@,
            },
            FrameRoute::Forward { routing, payload } => FrameRouteView::Forward {
                routing: routing@,
                payload: payload@,
            },
        }
    }
}

/// The response that a worker's payload spells, where it spells one.
pub open spec fn response_of(payload: JsonView) -> Option<ResponseView> {
    if payload.get_str("command"@) is Some && payload.get_bool("success"@) is Some
        && crate::protocol::optional_string(payload, "id"@) && crate::protocol::optional_string(
        payload,
        "error"@,
    ) {
        Some(
            ResponseView {
                id: payload.get_str("id"@),
                command: payload.get_str("command"@)->0,
                success: payload.get_bool("success"@)->0,
                data: non_null(payload.get("data"@)),
                error: payload.get_str("error"@),
                error_info: non_null(payload.get("errorInfo"@)),
            },
        )
    } else {
        None
    }
}

/// A member, with null counted as absent.
pub open spec fn non_null(value: Option<JsonView>) -> Option<JsonView> {
    match value {
        Some(JsonView::Null) => None,
        other => other,
    }
}

fn get_non_null(value: &Json, key: &str) -> (r: Option<Json>)
    ensures
        opt_view(r) == non_null(value@.get(key@)),
{
    match value.get(key) {
        None | Some(Json::Null) => None,
        Some(value) => Some(value.duplicate()),
    }
}

fn is_optional_string(value: &Json, key: &str) -> (r: bool)
    ensures
        r == crate::protocol::optional_string(value@, key@),
{
    match value.get(key) {
        None | Some(Json::Null) | Some(Json::Str(_)) => true,
        _ => false,
    }
}

/// The response that a worker's payload spells, where it spells one.
pub fn decode_response(payload: &Json) -> (r: Option<DaemonResponse>)
    ensures
        match r {
            Some(response) => response_of(payload@) == Some(response@),
            None => response_of(payload@) is None,
        },
{
    let command = match payload.get_string("command") {
        Some(command) => command,
        None => {
            return None;
        },
    };
    let success = match payload.get_bool("success") {
        Some(success) => success,
        None => {
            return None;
        },
    };
    if !is_optional_string(payload, "id") || !is_optional_string(payload, "error") {
        return None;
    }
    Some(
        DaemonResponse {
            id: payload.get_string("id"),
            command,
            success,
            data: get_non_null(payload, "data"),
            error: payload.get_string("error"),
            error_info: get_non_null(payload, "errorInfo"),
        },
    )
}

/// The clients that an event payload is for: those attached to the session it
/// names, or all where it names none.
pub open spec fn routing_of(payload: JsonView) -> RoutingView {
    match payload.get_str("activeSessionId"@) {
        Some(active_session_id) => RoutingView::AttachedSession { active_session_id },
        None => RoutingView::Broadcast,
    }
}

/// The route of a worker's frame: responses answer their request (a payload
/// that is none answers as a failure), session and side-question events go to
/// their clients, and anything else, or a payload that does not parse, is
/// dropped.
pub open spec fn frame_route(header: JsonView, payload: Option<JsonView>) -> FrameRouteView {
    let outbound = or_empty(header.get_str("outboundType"@));
    let request_id = or_empty(header.get_str("requestId"@));
    match payload {
        None => FrameRouteView::Ignore,
        Some(payload) => if outbound == "response"@ {
            FrameRouteView::Reply {
                request_id,
                response: match response_of(payload) {
                    Some(response) => response,
                    None => failure(Some(request_id), "parse"@, "invalid worker response"@),
                },
            }
        } else if outbound == "session_event"@ || outbound == "side_question_event"@ {
            FrameRouteView::Forward { routing: routing_of(payload), payload }
        } else {
            FrameRouteView::Ignore
        },
    }
}

/// The route of a worker's frame, its payload parsed.
pub fn route_frame(header: &Json, payload: Option<Json>) -> (r: FrameRoute)
    ensures
        r@ == frame_route(header@, opt_view(payload)),
{
    let outbound = header.get_string_or_empty("outboundType");
    let request_id = header.get_string_or_empty("requestId");
    let payload = match payload {
        Some(payload) => payload,
        None => {
            return FrameRoute::Ignore;
        },
    };
    if same_text(outbound.as_str(), "response") {
        let response = match decode_response(&payload) {
            Some(response) => response,
            None => response_failure(
                Some(request_id.as_str()),
                "parse",
                "invalid worker response",
                None,
            ),
        };
        FrameRoute::Reply { request_id, response }
    } else if same_text(outbound.as_str(), "session_event") || same_text(
        outbound.as_str(),
        "side_question_event",
    ) {
        let routing = match payload.get_str("activeSessionId") {
            Some(id) => ClientRouting::AttachedSession { active_session_id: id.to_owned() },
            None => ClientRouting::Broadcast,
        };
        FrameRoute::Forward { routing, payload }
    } else {
        FrameRoute::Ignore
    }
}

/// The route of a worker's frame.
pub fn read_worker_frame(header: &Json, payload: &Vec<u8>) -> (r: FrameRoute)
    ensures
        r@ == frame_route(header@, json_of_bytes(payload@)),
{
    route_frame(header, parse_json_bytes(payload))
}

/// The header of a command frame.
pub open spec fn header_json(request_id: Seq<char>, command_type: Seq<char>) -> JsonView {
    JsonView::object().field("kind"@, JsonView::Str("command"@)).field(
        "requestId"@,
        JsonView::Str(request_id),
    ).field("commandType"@, JsonView::Str(command_type))
}

/// The header of a command frame under a fresh request id, and the id.
pub fn fresh_command_header(command_type: &str) -> (r: (String, Json))
    ensures
        crate::ids::is_id_text(r.0@),
        r.1@ == header_json(r.0@, command_type@),
{
    let request_id = fresh_id();
    let header = command_header(request_id.as_str(), command_type);
    (request_id, header)
}

/// The header of a command frame.
pub fn command_header(request_id: &str, command_type: &str) -> (r: Json)
    ensures
        r@ == header_json(request_id@, command_type@),
{
    Json::object().field("kind", Json::string("command")).field(
        "requestId",
        Json::string(request_id),
    ).field("commandType", Json::string(command_type))
}

/// The name a supervisor process goes by.
pub open spec fn generation_of(pid: u32) -> Seq<char> {
    "sup:"@ + crate::text::decimal(pid as nat)
}

/// The name a supervisor process goes by.
pub fn supervisor_generation(pid: u32) -> (r: String)
    ensures
        r@ == generation_of(pid),
{
    concat2("sup:", crate::text::decimal_text(pid as u64).as_str())
}

/// The payload by which the supervisor authenticates itself to a worker.
pub open spec fn auth_json(
    token: Seq<char>,
    pid: u32,
    process_start_id: Option<Seq<char>>,
    socket_path: Seq<char>,
) -> JsonView {
    JsonView::object().field("token"@, JsonView::Str(token)).field(
        "supervisorGeneration"@,
        JsonView::Str(generation_of(pid)),
    ).field("supervisorPid"@, JsonView::uint(pid as u64)).field(
        "supervisorProcessStartId"@,
        crate::json::or_null(opt_string(process_start_id)),
    ).field("supervisorSocketPath"@, JsonView::Str(socket_path)).field(
        "workerInstanceId"@,
        JsonView::Null,
    )
}

/// The payload by which the supervisor authenticates itself to a worker.
pub fn worker_auth_payload(
    token: &str,
    pid: u32,
    process_start_id: Option<&str>,
    socket_path: &str,
) -> (r: Json)
    ensures
        r@ == auth_json(token@, pid, opt_str(process_start_id), socket_path@),
{
    let start = match process_start_id {
        Some(id) => Json::string(id),
        None => Json::Null,
    };
    Json::object().field("token", Json::string(token)).field(
        "supervisorGeneration",
        Json::string(supervisor_generation(pid).as_str()),
    ).field("supervisorPid", Json::uint(pid as u64)).field("supervisorProcessStartId", start).field(
        "supervisorSocketPath",
        Json::string(socket_path),
    ).field("workerInstanceId", Json::Null)
}

/// What the supervisor tells a client of itself.
#[derive(Debug, PartialEq, Eq)]
pub struct HelloFacts {
    pub socket_path: String,
    pub schema_id: String,
    pub schema_revision: u64,
    pub app_version: String,
    pub executable_path: String,
    pub pid: u32,
    pub process_start_id: Option<String>,
    pub client_id: String,
}

/// The greeting of a client that connected, under an owner token.
pub open spec fn hello_json(facts: HelloFacts, owner_token: Seq<char>) -> JsonView {
    let capabilities = client_capabilities() + server_only_capabilities();
    JsonView::object().field("type"@, JsonView::Str("daemon_hello"@)).field(
        "socketPath"@,
        JsonView::Str(facts.socket_path@),
    ).field(
        "protocol"@,
        JsonView::object().field("name"@, JsonView::Str(DAEMON_PROTOCOL_NAME@)).field(
            "version"@,
            JsonView::uint(DAEMON_PROTOCOL_VERSION),
        ),
    ).field("schemaId"@, JsonView::Str(facts.schema_id@)).field(
        "schemaRevision"@,
        JsonView::uint(facts.schema_revision),
    ).field("appVersion"@, JsonView::Str(facts.app_version@)).field(
        "runtime"@,
        JsonView::object().field("buildId"@, JsonView::Str(facts.app_version@)).field(
            "executablePath"@,
            JsonView::Str(facts.executable_path@),
        ),
    ).field("supervisorGeneration"@, JsonView::Str(generation_of(facts.pid))).field(
        "supervisorPid"@,
        JsonView::uint(facts.pid as u64),
    ).field("supervisorOwnerToken"@, JsonView::Str(owner_token)).field_opt(
        "supervisorProcessStartId"@,
        opt_string(opt_text(facts.process_start_id)),
    ).field("supervisorSocketPath"@, JsonView::Str(facts.socket_path@)).field(
        "clientId"@,
        JsonView::Str(facts.client_id@),
    ).field(
        "serverCapabilities"@,
        JsonView::Array(Seq::new(capabilities.len(), |i: int| JsonView::Str(capabilities[i]))),
    )
}

fn strings_json(values: &Vec<String>) -> (r: Json)
    ensures
        r@ == JsonView::Array(
            Seq::new(texts(values@).len(), |i: int| JsonView::Str(texts(values@)[i])),
        ),
{
    let ghost all = Seq::new(texts(values@).len(), |i: int| JsonView::Str(texts(values@)[i]));
    let mut items: Vec<Json> = Vec::new();
    let mut i: usize = 0;
    assert(items_view(items@) =~= all.take(0));
    while i < values.len()
        invariant
            i <= values@.len(),
            all == Seq::new(texts(values@).len(), |i: int| JsonView::Str(texts(values@)[i])),
            items_view(items@) == all.take(i as int),
        decreases values@.len() - i,
    {
        let ghost before = items@;
        items.push(Json::string(values[i].as_str()));
        assert(items@.drop_last() =~= before);
        i = i + 1;
        assert(items_view(items@) =~= all.take(i as int));
    }
    assert(all.take(i as int) =~= all);
    Json::array(items)
}

/// The greeting of a client that connected, under a fresh owner token.
pub fn client_hello(facts: &HelloFacts) -> (r: Json)
    ensures
        exists|token: Seq<char>| crate::ids::is_id_text(token) && r@ == #[trigger] hello_json(*facts, token),
{
    let token = fresh_id();
    let hello = Json::object().field("type", Json::string("daemon_hello")).field(
        "socketPath",
        Json::string(facts.socket_path.as_str()),
    ).field(
        "protocol",
        Json::object().field("name", Json::string(DAEMON_PROTOCOL_NAME)).field(
            "version",
            Json::uint(DAEMON_PROTOCOL_VERSION),
        ),
    ).field("schemaId", Json::string(facts.schema_id.as_str())).field(
        "schemaRevision",
        Json::uint(facts.schema_revision),
    ).field("appVersion", Json::string(facts.app_version.as_str())).field(
        "runtime",
        Json::object().field("buildId", Json::string(facts.app_version.as_str())).field(
            "executablePath",
            Json::string(facts.executable_path.as_str()),
        ),
    ).field("supervisorGeneration", Json::string(supervisor_generation(facts.pid).as_str())).field(
        "supervisorPid",
        Json::uint(facts.pid as u64),
    ).field("supervisorOwnerToken", Json::string(token.as_str())).field_opt_str(
        "supervisorProcessStartId",
        as_opt_str(&facts.process_start_id),
    ).field("supervisorSocketPath", Json::string(facts.socket_path.as_str())).field(
        "clientId",
        Json::string(facts.client_id.as_str()),
    ).field("serverCapabilities", strings_json(&default_server_capabilities()));
    assert(hello@ == hello_json(*facts, token@));
    hello
}

/// Whether a verdict says whether a worker accepted the supervisor.
pub open spec fn is_auth_verdict(result: Result<(), String>, response: DaemonResponse) -> bool {
    match result {
        Ok(_) => response.success,
        Err(message) => !response.success && message@ == "worker authentication failed: "@
            + or_empty(opt_text(response.error)),
    }
}

/// Whether a worker accepted the supervisor.
pub fn check_worker_auth(response: &DaemonResponse) -> (r: Result<(), String>)
    ensures
        is_auth_verdict(r, *response),
{
    if response.success {
        Ok(())
    } else {
        let error = match &response.error {
            Some(error) => error.clone(),
            None => String::new(),
        };
        Err(concat2("worker authentication failed: ", error.as_str()))
    }
}

/// How a routed request can fail to be answered.
#[derive(Debug, Clone, Copy, PartialEq, Eq, Structural)]
pub enum RouteFailure {
    NotConnected,
    Dropped,
    TimedOut,
}

impl RouteFailure {
    pub open spec fn text(self) -> Seq<char> {
        match self {
            RouteFailure::NotConnected => "Session worker is not connected"@,
            RouteFailure::Dropped => "Session worker dropped the request"@,
            RouteFailure::TimedOut => "Session worker timed out"@,
        }
    }

    /// The error sentence of the failure.
    pub fn message(self) -> (r: &'static str)
        ensures
            r@ == self.text(),
    {
        match self {
            RouteFailure::NotConnected => "Session worker is not connected",
            RouteFailure::Dropped => "Session worker dropped the request",
            RouteFailure::TimedOut => "Session worker timed out",
        }
    }
}

// ---------------------------------------------------------------------------
// Client connections
// ---------------------------------------------------------------------------

/// Whether a client with these attached sessions gets an event.
pub open spec fn delivered(routing: RoutingView, attached: Seq<Seq<char>>) -> bool {
    match routing {
        RoutingView::Broadcast => true,
        RoutingView::AttachedSession { active_session_id } => attached.contains(active_session_id),
    }
}

/// Whether a client with these attached sessions gets an event.
pub fn delivers(routing: &ClientRouting, attached: &Vec<String>) -> (r: bool)
    ensures
        r == delivered(routing@, texts(attached@)),
{
    match routing {
        ClientRouting::Broadcast => true,
        ClientRouting::AttachedSession {
            active_session_id,
        } => crate::text::holds_text(attached, active_session_id.as_str()),
    }
}

/// The payload that detaches a client that went away.
pub open spec fn detach_json(client_id: Seq<char>) -> JsonView {
    JsonView::object().field("type"@, JsonView::Str("detach"@)).field(
        "clientId"@,
        JsonView::Str(client_id),
    )
}

/// The payload that detaches a client that went away.
pub fn disconnect_payload(client_id: &str) -> (r: Json)
    ensures
        r@ == detach_json(client_id@),
{
    Json::object().field("type", Json::string("detach")).field("clientId", Json::string(client_id))
}

/// What the supervisor does with one client line.
#[derive(Debug, PartialEq, Eq)]
pub enum Dispatch {
    /// Nothing is answered.
    Quiet,
    /// The line is answered right away.
    Answer(Json),
    /// Answer with both lines, tell every client of the second, and stop.
    Shutdown { response: Json, closing: Json },
    /// The command is handled under its id.
    Handle { id: String, command: DaemonCommand },
}

/// The mathematical dispatch behind a [`Dispatch`].
#[verifier::ext_equal]
pub enum DispatchView {
    Quiet,
    Answer(JsonView),
    Shutdown { response: JsonView, closing: JsonView },
    Handle { id: Seq<char>, command: CommandView },
}

impl View for Dispatch {
    type V = DispatchView;

    open spec fn view(&self) -> DispatchView {
        match self {
            Dispatch::Quiet => DispatchView::Quiet,
            Dispatch::Answer(line) => DispatchView::Answer(line@),
            Dispatch::Shutdown { response, closing } => DispatchView::Shutdown {
                response: response@,
                closing: closing@,
            },
            Dispatch::Handle { id, command } => DispatchView::Handle {
                id: id@,
                command: command@,
            },
        }
    }
}

/// The line that tells every client of the shutdown.
pub open spec fn closing_line() -> JsonView {
    JsonView::object().field("type"@, JsonView::Str("daemon_closing"@)).field(
        "reason"@,
        JsonView::Str("shutdown"@),
    )
}

/// The id that a refused line can still be answered under.
pub open spec fn salvaged_id(parsed: Result<JsonView, Seq<char>>) -> Option<Seq<char>> {
    match parsed {
        Ok(value) => value.get_str("id"@),
        Err(_) => None,
    }
}

/// What a client line leads to, and the client id in force after it.
pub open spec fn dispatch_of(
    parsed: Result<JsonView, Seq<char>>,
    client_id: Seq<char>,
) -> (DispatchView, Seq<char>) {
    match supervisor_line_envelope(parsed) {
        Err(error) => (
            DispatchView::Answer(
                line_of(failure(salvaged_id(parsed), "parse"@, error.message())),
            ),
            client_id,
        ),
        Ok(envelope) => {
            let client_id = match envelope.client_id {
                Some(client_id) => client_id,
                None => client_id,
            };
            let dispatch = match envelope.command.kind {
                CommandKind::AckResult => DispatchView::Quiet,
                CommandKind::Restart | CommandKind::Shutdown => DispatchView::Shutdown {
                    response: line_of(
                        success(Some(envelope.id), wire_name(envelope.command.kind), None),
                    ),
                    closing: closing_line(),
                },
                _ => DispatchView::Handle { id: envelope.id, command: envelope.command },
            };
            (dispatch, client_id)
        },
    }
}

/// What a text spells, by views.
pub open spec fn parsed_view(parsed: Result<Json, String>) -> Result<JsonView, Seq<char>> {
    match parsed {
        Ok(value) => Ok(value@),
        Err(message) => Err(message@),
    }
}

/// What a client line leads to, given what its text spells.
pub fn dispatch_parsed(parsed: Result<Json, String>, client_id: &mut String) -> (r: Dispatch)
    ensures
        (r@, final(client_id)@) == dispatch_of(parsed_view(parsed), old(client_id)@),
{
    let id = match &parsed {
        Ok(value) => value.get_string("id"),
        Err(_) => None,
    };
    let result: Result<DaemonCommandEnvelope, EnvelopeParseError> = match parsed {
        Ok(value) => parse_supervisor_command_value(&value),
        Err(message) => Err(
            EnvelopeParseError::Invalid(concat2("invalid JSON: ", message.as_str())),
        ),
    };
    match result {
        Err(error) => Dispatch::Answer(
            response_line(
                &response_failure(as_opt_str(&id), "parse", error.message().as_str(), None),
            ),
        ),
        Ok(envelope) => {
            match &envelope.client_id {
                Some(named) => {
                    *client_id = named.clone();
                },
                None => {},
            }
            match envelope.command.kind {
                CommandKind::AckResult => Dispatch::Quiet,
                CommandKind::Restart | CommandKind::Shutdown => Dispatch::Shutdown {
                    response: response_line(
                        &response_success(
                            Some(envelope.id.as_str()),
                            command_type_name(&envelope.command),
                            None,
                        ),
                    ),
                    closing: Json::object().field("type", Json::string("daemon_closing")).field(
                        "reason",
                        Json::string("shutdown"),
                    ),
                },
                _ => Dispatch::Handle { id: envelope.id, command: envelope.command },
            }
        },
    }
}

/// Handle one client line: a line that does not parse is answered under the id
/// it carries, an acknowledgement is taken in silence, a restart or shutdown is
/// confirmed and announced, and any other command is handled under its id. A
/// client id in the envelope replaces the connection's.
pub fn dispatch_client(line: &str, client_id: &mut String) -> (r: Dispatch)
    ensures
        (r@, final(client_id)@) == dispatch_of(json_of_text(line@), old(client_id)@),
{
    let parsed = parse_json(line);
    dispatch_parsed(parsed, client_id)
}

/// What handles a command that is not settled by its kind alone.
#[derive(Debug, Clone, Copy, PartialEq, Eq, Structural)]
pub enum Handler {
    /// List the live workers.
    ListLive,
    /// List all saved sessions.
    ListSaved,
    /// List saved sessions, row by row.
    SavedSessions,
    Create,
    SendMessage,
    /// Hand it to the worker that it addresses.
    Route,
}

/// What handles a command: a listing of all sessions is one of the saved ones,
/// and any command without a handler of its own goes to its worker.
pub open spec fn handler_for(command: CommandView) -> Handler {
    match command.kind {
        CommandKind::List => if command.wire.get_bool("all"@) == Some(true) {
            Handler::ListSaved
        } else {
            Handler::ListLive
        },
        CommandKind::ListSavedSessions => Handler::SavedSessions,
        CommandKind::Create => Handler::Create,
        CommandKind::SendMessage => Handler::SendMessage,
        _ => Handler::Route,
    }
}

/// What handles a command.
pub fn handler_of(command: &DaemonCommand) -> (r: Handler)
    ensures
        r == handler_for(command@),
{
    match command.kind {
        CommandKind::List => if command.wire.get_bool("all") == Some(true) {
            Handler::ListSaved
        } else {
            Handler::ListLive
        },
        CommandKind::ListSavedSessions => Handler::SavedSessions,
        CommandKind::Create => Handler::Create,
        CommandKind::SendMessage => Handler::SendMessage,
        _ => Handler::Route,
    }
}

/// A refused line is always answered, with a failure, and never changes the
/// client id.
pub proof fn law_refused_lines_are_answered(
    parsed: Result<JsonView, Seq<char>>,
    client_id: Seq<char>,
)
    requires
        supervisor_line_envelope(parsed) is Err,
    ensures
        dispatch_of(parsed, client_id).0 == DispatchView::Answer(
            line_of(
                failure(
                    salvaged_id(parsed),
                    "parse"@,
                    supervisor_line_envelope(parsed)->Err_0.message(),
                ),
            ),
        ),
        dispatch_of(parsed, client_id).1 == client_id,
{
}

/// How long a routed command may take.
pub open spec fn route_timeout(kind: CommandKind) -> u64 {
    match kind {
        CommandKind::PromptAndWait | CommandKind::WaitForIdle => LONG_ROUTE_TIMEOUT_MS,
        _ => ROUTE_TIMEOUT_MS,
    }
}

/// The capabilities the supervisor attaches with.
pub open spec fn attach_capabilities() -> JsonView {
    JsonView::Array(
        seq![
            JsonView::Str("attach_snapshot"@),
            JsonView::Str("event_sequence"@),
            JsonView::Str("slim_attach"@),
        ],
    )
}

/// The payload a worker gets for a client's command: the command's object with
/// the client id, with the supervisor's capabilities on an attach, and with a
/// configuration object's members set in its place.
pub open spec fn routed_payload(command: CommandView, client_id: Seq<char>) -> JsonView {
    let named = command.wire.put("clientId"@, JsonView::Str(client_id));
    let attached = match command.kind {
        CommandKind::Attach | CommandKind::Reattach => named.put(
            "capabilities"@,
            attach_capabilities(),
        ),
        _ => named,
    };
    match attached.get("config"@) {
        None => attached,
        Some(JsonView::Object(members)) => attached.without("config"@).put_all(members),
        Some(_) => attached.without("config"@),
    }
}

fn capabilities_json() -> (r: Json)
    ensures
        r@ == attach_capabilities(),
{
    let items: Vec<Json> =
        vec![
        Json::string("attach_snapshot"),
        Json::string("event_sequence"),
        Json::string("slim_attach"),
    ];
    proof {
        lemma_items_view(items@);
    }
    assert(items_view(items@) =~= attach_capabilities()->Array_0);
    Json::array(items)
}

/// The worker-side command name and payload for a client's command.
pub fn client_command_payload(command: &DaemonCommand, client_id: &str) -> (r: (
    &'static str,
    Json,
))
    ensures
        r.0@ == wire_name(command.kind),
        r.1@ == routed_payload(command@, client_id@),
{
    let named = command.wire.duplicate().put("clientId", Json::string(client_id));
    let attached = match command.kind {
        CommandKind::Attach | CommandKind::Reattach => named.put(
            "capabilities",
            capabilities_json(),
        ),
        _ => named,
    };
    let config = attached.get_copy("config");
    let payload = match config {
        None => attached,
        Some(config) => attached.without("config").put_all(&config),
    };
    (command_type_name(command), payload)
}

/// How long a routed command may take.
pub fn command_timeout(command: &DaemonCommand) -> (r: u64)
    ensures
        r == route_timeout(command.kind),
{
    match command.kind {
        CommandKind::PromptAndWait | CommandKind::WaitForIdle => LONG_ROUTE_TIMEOUT_MS,
        _ => ROUTE_TIMEOUT_MS,
    }
}

/// What is left to do once a routed command was answered.
#[derive(Debug, Clone, Copy, PartialEq, Eq, Structural)]
pub enum AfterRoute {
    Nothing,
    StopWorker,
    RelaunchWorker,
}

/// What is left to do once a routed command was answered: a kill stops the
/// worker and a retry relaunches it, where they succeeded.
pub open spec fn after_route(kind: CommandKind, succeeded: bool) -> AfterRoute {
    match kind {
        CommandKind::Kill if succeeded => AfterRoute::StopWorker,
        CommandKind::RetryWorker if succeeded => AfterRoute::RelaunchWorker,
        _ => AfterRoute::Nothing,
    }
}

/// The sessions a client is attached to after a routed command was answered:
/// an attach that succeeded with data adds the session it reports (the worker
/// itself where it reports none) unless it is there, and a detach that
/// succeeded removes the worker.
pub open spec fn attached_after(
    kind: CommandKind,
    response: ResponseView,
    worker_id: Seq<char>,
    attached: Seq<Seq<char>>,
) -> Seq<Seq<char>> {
    match kind {
        CommandKind::Attach | CommandKind::Reattach => if response.success
            && response.data is Some {
            let id = match response.data->0.get_str("activeSessionId"@) {
                Some(id) => id,
                None => worker_id,
            };
            if attached.contains(id) {
                attached
            } else {
                attached.push(id)
            }
        } else {
            attached
        },
        CommandKind::Detach if response.success => without_text(attached, worker_id),
        _ => attached,
    }
}

/// The texts other than one.
pub open spec fn without_text(values: Seq<Seq<char>>, unwanted: Seq<char>) -> Seq<Seq<char>>
    decreases values.len(),
{
    if values.len() == 0 {
        Seq::empty()
    } else {
        let before = without_text(values.drop_last(), unwanted);
        if values.last() == unwanted {
            before
        } else {
            before.push(values.last())
        }
    }
}

/// Drop every occurrence of a text.
fn remove_text(values: &mut Vec<String>, unwanted: &str)
    ensures
        texts(final(values)@) == without_text(texts(old(values)@), unwanted@),
{
    let ghost all = texts(values@);
    let mut out: Vec<String> = Vec::new();
    let mut i: usize = 0;
    assert(without_text(all.take(0), unwanted@) =~= texts(out@));
    while i < values.len()
        invariant
            i <= values@.len(),
            values@ == old(values)@,
            all == texts(values@),
            texts(out@) == without_text(all.take(i as int), unwanted@),
        decreases values@.len() - i,
    {
        let ghost before = texts(out@);
        proof {
            assert(all.take(i + 1).drop_last() =~= all.take(i as int));
            assert(all.take(i + 1).last() == values@[i as int]@);
        }
        if !same_text(values[i].as_str(), unwanted) {
            out.push(values[i].clone());
            assert(texts(out@) =~= before.push(values@[i as int]@));
        }
        i = i + 1;
    }
    assert(all.take(i as int) =~= all);
    *values = out;
}

/// The answer to a routed command: the worker's response under the client's
/// request id, or the failure to get one.
pub open spec fn routed_answer(
    kind: CommandKind,
    command_id: Seq<char>,
    result: Result<ResponseView, RouteFailure>,
) -> JsonView {
    match result {
        Ok(response) => line_of(ResponseView { id: Some(command_id), ..response }),
        Err(error) => line_of(failure(Some(command_id), wire_name(kind), error.text())),
    }
}

/// Settle a routed command: what the client is answered, what it is attached
/// to from now on, and what is left to do.
pub fn settle_route(
    command: &DaemonCommand,
    command_id: &str,
    worker_id: &str,
    attached: &mut Vec<String>,
    result: Result<DaemonResponse, RouteFailure>,
) -> (r: (Json, AfterRoute))
    ensures
        r.0@ == routed_answer(
            command.kind,
            command_id@,
            match result {
                Ok(response) => Ok(response@),
                Err(error) => Err(error),
            },
        ),
        match result {
            Ok(response) => texts(final(attached)@) == attached_after(
                command.kind,
                response@,
                worker_id@,
                texts(old(attached)@),
            ) && r.1 == after_route(command.kind, response.success),
            Err(_) => texts(final(attached)@) == texts(old(attached)@) && r.1
                == AfterRoute::Nothing,
        },
{
    let mut response = match result {
        Ok(response) => response,
        Err(error) => {
            let line = response_line(
                &response_failure(
                    Some(command_id),
                    command_type_name(command),
                    error.message(),
                    None,
                ),
            );
            return (line, AfterRoute::Nothing);
        },
    };
    response.id = Some(command_id.to_owned());
    let mut after = AfterRoute::Nothing;
    match command.kind {
        CommandKind::Attach | CommandKind::Reattach => {
            if response.success {
                match &response.data {
                    Some(data) => {
                        let id = match data.get_str("activeSessionId") {
                            Some(id) => id.to_owned(),
                            None => worker_id.to_owned(),
                        };
                        if !crate::text::holds_text(attached, id.as_str()) {
                            let ghost before = texts(attached@);
                            attached.push(id);
                            assert(texts(attached@) =~= before.push(id@));
                        }
                    },
                    None => {},
                }
            }
        },
        CommandKind::Detach => {
            if response.success {
                remove_text(attached, worker_id);
            }
        },
        CommandKind::Kill => {
            if response.success {
                after = AfterRoute::StopWorker;
            }
        },
        CommandKind::RetryWorker => {
            if response.success {
                after = AfterRoute::RelaunchWorker;
            }
        },
        _ => {},
    }
    (response_line(&response), after)
}

/// No routed command attaches a client to one session twice.
pub proof fn law_attached_stays_without_duplicates(
    kind: CommandKind,
    response: ResponseView,
    worker_id: Seq<char>,
    attached: Seq<Seq<char>>,
)
    requires
        attached.no_duplicates(),
    ensures
        attached_after(kind, response, worker_id, attached).no_duplicates(),
{
    let after = attached_after(kind, response, worker_id, attached);
    match kind {
        CommandKind::Detach if response.success => {
            lemma_without_text(attached, worker_id);
        },
        CommandKind::Attach | CommandKind::Reattach => {
            if after != attached {
                let id = after.last();
                assert(after =~= attached.push(id));
                assert(!attached.contains(id));
                assert forall|i: int, j: int|
                    0 <= i < after.len() && 0 <= j < after.len() && i != j implies after[i]
                    != after[j] by {
                    if i < attached.len() && j == attached.len() {
                        assert(attached.contains(attached[i]));
                    }
                    if j < attached.len() && i == attached.len() {
                        assert(attached.contains(attached[j]));
                    }
                }
            }
        },
        _ => {},
    }
}

proof fn lemma_without_text(s: Seq<Seq<char>>, unwanted: Seq<char>)
    ensures
        s.no_duplicates() ==> without_text(s, unwanted).no_duplicates(),
        forall|x: Seq<char>| #[trigger]
            without_text(s, unwanted).contains(x) <==> s.contains(x) && x != unwanted,
    decreases s.len(),
{
    if s.len() > 0 {
        let rest = s.drop_last();
        let last = s.last();
        let kept = without_text(s, unwanted);
        let kept_rest = without_text(rest, unwanted);
        lemma_without_text(rest, unwanted);
        assert(s =~= rest.push(last));
        assert forall|x: Seq<char>| #[trigger] kept.contains(x) <==> s.contains(x) && x
            != unwanted by {
            if kept.contains(x) {
                let k = choose|k: int| 0 <= k < kept.len() && kept[k] == x;
                if k < kept_rest.len() {
                    assert(kept_rest[k] == x);
                    assert(kept_rest.contains(x));
                    let m = choose|m: int| 0 <= m < rest.len() && rest[m] == x;
                    assert(s[m] == x);
                } else {
                    assert(s[s.len() - 1] == x);
                }
            }
            if s.contains(x) && x != unwanted {
                let k = choose|k: int| 0 <= k < s.len() && s[k] == x;
                if k < rest.len() {
                    assert(rest[k] == x);
                    assert(kept_rest.contains(x));
                    let m = choose|m: int| 0 <= m < kept_rest.len() && kept_rest[m] == x;
                    assert(kept[m] == x);
                } else {
                    assert(kept[kept.len() - 1] == x);
                }
            }
        }
        if s.no_duplicates() {
            assert forall|i: int, j: int|
                0 <= i < rest.len() && 0 <= j < rest.len() && i != j implies rest[i] != rest[j] by {
                assert(rest[i] == s[i] && rest[j] == s[j]);
            }
            assert(!rest.contains(last)) by {
                if rest.contains(last) {
                    let k = choose|k: int| 0 <= k < rest.len() && rest[k] == last;
                    assert(s[k] == s[s.len() - 1]);
                }
            }
            assert forall|i: int, j: int|
                0 <= i < kept.len() && 0 <= j < kept.len() && i != j implies kept[i] != kept[j] by {
                if last != unwanted {
                    if i < kept_rest.len() && j == kept_rest.len() {
                        assert(kept_rest.contains(kept_rest[i]));
                    }
                    if j < kept_rest.len() && i == kept_rest.len() {
                        assert(kept_rest.contains(kept_rest[j]));
                    }
                }
            }
        }
    }
}

/// After a detach that succeeded the client gets no more of the worker's
/// events, and keeps the others'.
pub proof fn law_detach_stops_delivery(
    response: ResponseView,
    worker_id: Seq<char>,
    attached: Seq<Seq<char>>,
    other: Seq<char>,
)
    requires
        response.success,
        other != worker_id,
    ensures
        ({
            let after = attached_after(CommandKind::Detach, response, worker_id, attached);
            &&& !delivered(RoutingView::AttachedSession { active_session_id: worker_id }, after)
            &&& delivered(RoutingView::AttachedSession { active_session_id: other }, after)
                == delivered(RoutingView::AttachedSession { active_session_id: other }, attached)
        }),
{
    lemma_without_text(attached, worker_id);
}

// ---------------------------------------------------------------------------
// Waiting requests
// ---------------------------------------------------------------------------

/// The requests that wait for a worker's answer, by their ids.
#[derive(Debug, PartialEq, Eq)]
pub struct PendingRequests {
    pub ids: Vec<String>,
}

impl View for PendingRequests {
    type V = Set<Seq<char>>;

    open spec fn view(&self) -> Set<Seq<char>> {
        Set::new(|id: Seq<char>| texts(self.ids@).contains(id))
    }
}

/// Whether an answer settles a request that waits, and what waits after it.
pub open spec fn answered(pending: Set<Seq<char>>, id: Seq<char>) -> (bool, Set<Seq<char>>) {
    (pending.contains(id), pending.remove(id))
}

impl PendingRequests {
    /// Nothing waits: a new connection to a worker begins so.
    pub fn new() -> (r: PendingRequests)
        ensures
            r@ == Set::<Seq<char>>::empty(),
    {
        let r = PendingRequests { ids: Vec::new() };
        assert(texts(r.ids@) =~= Seq::empty());
        assert(r@ =~= Set::empty());
        r
    }

    /// Let a request wait for its answer.
    pub fn wait(&mut self, id: &str)
        ensures
            final(self)@ == old(self)@.insert(id@),
    {
        let ghost before = texts(self.ids@);
        self.ids.push(id.to_owned());
        proof {
            let after = texts(self.ids@);
            assert(after =~= before.push(id@));
            assert forall|x: Seq<char>| after.contains(x) <==> before.contains(x) || x == id@ by {
                if before.contains(x) {
                    let k = choose|k: int| 0 <= k < before.len() && before[k] == x;
                    assert(after[k] == x);
                }
                if x == id@ {
                    assert(after[before.len() as int] == x);
                }
            }
            assert(self@ =~= old(self)@.insert(id@));
        }
    }

    /// Take the request that an answer is for, where it waits.
    pub fn take(&mut self, id: &str) -> (r: bool)
        ensures
            (r, final(self)@) == answered(old(self)@, id@),
    {
        let waits = crate::text::holds_text(&self.ids, id);
        let ghost before = texts(self.ids@);
        remove_text(&mut self.ids, id);
        proof {
            lemma_without_text(before, id@);
            assert(self@ =~= old(self)@.remove(id@));
        }
        waits
    }
}

/// A request is answered at most once, and no answer touches another request:
/// once an answer settled a request, a second one finds nothing that waits.
pub proof fn law_requests_are_answered_once(
    pending: Set<Seq<char>>,
    id: Seq<char>,
    other: Seq<char>,
)
    requires
        other != id,
    ensures
        answered(pending.insert(id), id).0,
        !answered(answered(pending.insert(id), id).1, id).0,
        answered(answered(pending.insert(id), id).1, other).0 == pending.contains(other),
{
}

// ---------------------------------------------------------------------------
// Resolving workers
// ---------------------------------------------------------------------------

/// What a live worker answers to: its id, the id of its root session, the stem
/// of its session file, and its name.
#[derive(Debug, PartialEq, Eq)]
pub struct WorkerLabels {
    pub worker_id: String,
    pub root_id: String,
    pub file_stem: String,
    pub name: String,
}

/// The mathematical labels behind a [`WorkerLabels`].
#[verifier::ext_equal]
pub struct LabelsView {
    pub worker_id: Seq<char>,
    pub root_id: Seq<char>,
    pub file_stem: Seq<char>,
    pub name: Seq<char>,
}

impl View for WorkerLabels {
    type V = LabelsView;

    open spec fn view(&self) -> LabelsView {
        LabelsView {
            worker_id: self.worker_id@,
            root_id: self.root_id@,
            file_stem: self.file_stem@,
            name: self.name@,
        }
    }
}

/// The labels of a run of workers.
pub open spec fn labels_of(workers: Seq<WorkerLabels>) -> Seq<LabelsView> {
    Seq::new(workers.len(), |i: int| workers[i]@)
}

/// What a worker answers to, by its descriptor: the stem is that of its session
/// file.
pub fn labels(descriptor: &WorkerDescriptor) -> (r: WorkerLabels)
    ensures
        r@ == labels_with(*descriptor, file_stem_of(or_empty(descriptor@.session_file))),
{
    let file = match &descriptor.session_file {
        Some(file) => file.clone(),
        None => String::new(),
    };
    let stem = file_stem(file.as_str());
    stemmed_labels(descriptor, as_opt_str(&stem))
}

/// What a worker answers to, by its descriptor and the stem of its session file.
pub open spec fn labels_with(descriptor: WorkerDescriptor, stem: Option<Seq<char>>) -> LabelsView {
    LabelsView {
        worker_id: descriptor@.worker_id,
        root_id: descriptor@.root_active_session_id,
        file_stem: or_empty(stem),
        name: or_empty(descriptor.create_command.rest@.get_str("name"@)),
    }
}

/// What a worker answers to, by its descriptor and the stem of its session file.
pub fn stemmed_labels(descriptor: &WorkerDescriptor, stem: Option<&str>) -> (r: WorkerLabels)
    ensures
        r@ == labels_with(*descriptor, opt_str(stem)),
{
    WorkerLabels {
        worker_id: descriptor.worker_id.clone(),
        root_id: descriptor.root_active_session_id.clone(),
        file_stem: match stem {
            Some(stem) => stem.to_owned(),
            None => String::new(),
        },
        name: descriptor.create_command.rest.get_string_or_empty("name"),
    }
}

/// Whether a normalized suffix ends a normalized label, neither being empty.
pub open spec fn suffix_matches(label: Seq<char>, suffix: Seq<char>) -> bool {
    label.len() > 0 && suffix.len() > 0 && ends_with(label, suffix)
}

/// Whether a normalized suffix ends a normalized label, neither being empty.
pub fn matches_suffix(label: &str, suffix: &str) -> (r: bool)
    ensures
        r == suffix_matches(label@, suffix@),
{
    !is_empty_text(label) && !is_empty_text(suffix) && has_suffix(label, suffix)
}

/// A label as selectors are compared: without hyphens, in small letters.
pub open spec fn normalized(label: Seq<char>) -> Seq<char> {
    lowercase_of(without_char(label, '-'))
}

/// Whether a selector ends a label, hyphens and case aside.
pub fn selector_matches(candidate: &str, suffix: &str) -> (r: bool)
    ensures
        r == suffix_matches(normalized(candidate@), normalized(suffix@)),
{
    let candidate = lowercase(drop_char(candidate, '-').as_str());
    let suffix = lowercase(drop_char(suffix, '-').as_str());
    matches_suffix(candidate.as_str(), suffix.as_str())
}

/// Whether a selector is for a worker: it ends the root id or the file stem,
/// or is the worker's name.
pub open spec fn answers_to(worker: LabelsView, selector: Seq<char>) -> bool {
    ||| suffix_matches(normalized(worker.root_id), normalized(selector))
    ||| suffix_matches(normalized(worker.file_stem), normalized(selector))
    ||| worker.name.len() > 0 && worker.name == selector
}

fn worker_answers(worker: &WorkerLabels, selector: &str) -> (r: bool)
    ensures
        r == answers_to(worker@, selector@),
{
    selector_matches(worker.root_id.as_str(), selector) || selector_matches(
        worker.file_stem.as_str(),
        selector,
    ) || (!is_empty_text(worker.name.as_str()) && same_text(worker.name.as_str(), selector))
}

/// The positions below `n` of the workers a selector is for.
pub open spec fn matching(workers: Seq<LabelsView>, selector: Seq<char>, n: nat) -> Seq<int>
    decreases n,
{
    if n == 0 {
        Seq::empty()
    } else {
        let before = matching(workers, selector, (n - 1) as nat);
        if answers_to(workers[n - 1], selector) {
            before.push(n - 1)
        } else {
            before
        }
    }
}

/// A worker as an ambiguous selector lists it: its root id, and its name where
/// it has one.
pub open spec fn rendered(worker: LabelsView) -> Seq<char> {
    if worker.name.len() == 0 {
        worker.root_id
    } else {
        worker.root_id + " ("@ + worker.name + ")"@
    }
}

/// The position of the worker that carries exactly this id.
pub open spec fn exact(workers: Seq<LabelsView>, selector: Seq<char>) -> Option<int>
    decreases workers.len(),
{
    if workers.len() == 0 {
        None
    } else if workers.last().worker_id == selector {
        Some(workers.len() - 1)
    } else {
        exact(workers.drop_last(), selector)
    }
}

/// The worker a selector is for: the one of exactly this id, else the only one
/// that answers to it. More than one is ambiguous, and none is unknown.
pub open spec fn resolved(workers: Seq<LabelsView>, selector: Seq<char>) -> Result<
    int,
    Seq<char>,
> {
    let found = matching(workers, selector, workers.len());
    if exact(workers, selector) is Some {
        Ok(exact(workers, selector)->0)
    } else if found.len() == 1 {
        Ok(found[0])
    } else if found.len() > 1 {
        Err(
            "Ambiguous active session \""@ + selector + "\": matches "@ + join(
                Seq::new(found.len(), |i: int| rendered(workers[found[i]])),
                ", "@,
            ),
        )
    } else {
        Err("Unknown active session: "@ + selector)
    }
}

fn find_exact(workers: &Vec<WorkerLabels>, selector: &str) -> (r: Option<usize>)
    ensures
        match r {
            Some(i) => i < workers@.len() && exact(labels_of(workers@), selector@) == Some(
                i as int,
            ),
            None => exact(labels_of(workers@), selector@) is None,
        },
{
    let ghost all = labels_of(workers@);
    let mut n: usize = workers.len();
    assert(all.take(n as int) =~= all);
    while n > 0
        invariant
            n <= workers@.len(),
            all == labels_of(workers@),
            exact(all, selector@) == exact(all.take(n as int), selector@),
        decreases n,
    {
        assert(all.take(n as int).drop_last() =~= all.take(n - 1));
        assert(all.take(n as int).last() == workers@[n - 1]@);
        if same_text(workers[n - 1].worker_id.as_str(), selector) {
            return Some(n - 1);
        }
        n = n - 1;
    }
    None
}

fn render(worker: &WorkerLabels) -> (r: String)
    ensures
        r@ == rendered(worker@),
{
    if is_empty_text(worker.name.as_str()) {
        worker.root_id.clone()
    } else {
        concat4(worker.root_id.as_str(), " (", worker.name.as_str(), ")")
    }
}

/// The worker a selector is for.
pub fn resolve_worker(workers: &Vec<WorkerLabels>, selector: &str) -> (r: Result<usize, String>)
    ensures
        match r {
            Ok(i) => i < workers@.len() && resolved(labels_of(workers@), selector@) == Ok::<
                int,
                Seq<char>,
            >(i as int),
            Err(message) => resolved(labels_of(workers@), selector@) == Err::<int, Seq<char>>(
                message@,
            ),
        },
{
    let ghost all = labels_of(workers@);
    match find_exact(workers, selector) {
        Some(i) => {
            return Ok(i);
        },
        None => {},
    }
    let mut found: Vec<usize> = Vec::new();
    let mut names: Vec<String> = Vec::new();
    let mut i: usize = 0;
    while i < workers.len()
        invariant
            i <= workers@.len(),
            all == labels_of(workers@),
            found@.len() == matching(all, selector@, i as nat).len(),
            names@.len() == found@.len(),
            forall|k: int|
                0 <= k < found@.len() ==> #[trigger] found@[k] == matching(
                    all,
                    selector@,
                    i as nat,
                )[k] && found@[k] < i,
            forall|k: int|
                0 <= k < found@.len() ==> (#[trigger] names@[k])@ == rendered(
                    all[found@[k] as int],
                ),
        decreases workers@.len() - i,
    {
        if worker_answers(&workers[i], selector) {
            found.push(i);
            names.push(render(&workers[i]));
        }
        i = i + 1;
    }
    let ghost positions = matching(all, selector@, workers@.len());
    if found.len() == 1 {
        return Ok(found[0]);
    }
    if found.len() > 1 {
        proof {
            assert(texts(names@) =~= Seq::new(
                positions.len(),
                |k: int| rendered(all[positions[k]]),
            )) by {
                assert forall|k: int| 0 <= k < names@.len() implies #[trigger] texts(names@)[k]
                    == rendered(all[positions[k]]) by {
                    assert(found@[k] == positions[k]);
                    assert(names@[k]@ == rendered(all[found@[k] as int]));
                }
            }
        }
        let list = join_texts(&names, ", ");
        return Err(
            concat4("Ambiguous active session \"", selector, "\": matches ", list.as_str()),
        );
    }
    Err(concat2("Unknown active session: ", selector))
}

proof fn lemma_exact(workers: Seq<LabelsView>, selector: Seq<char>)
    ensures
        match exact(workers, selector) {
            Some(i) => 0 <= i < workers.len() && workers[i].worker_id == selector,
            None => forall|j: int|
                0 <= j < workers.len() ==> (#[trigger] workers[j]).worker_id != selector,
        },
    decreases workers.len(),
{
    if workers.len() > 0 && workers.last().worker_id != selector {
        lemma_exact(workers.drop_last(), selector);
        assert forall|j: int| exact(workers, selector) is None && 0 <= j < workers.len() implies (
        #[trigger] workers[j]).worker_id != selector by {
            if j < workers.len() - 1 {
                assert(workers.drop_last()[j] == workers[j]);
            }
        }
    }
}

proof fn lemma_matching(workers: Seq<LabelsView>, selector: Seq<char>, n: nat)
    requires
        n <= workers.len(),
    ensures
        forall|k: int|
            0 <= k < matching(workers, selector, n).len() ==> 0 <= #[trigger] matching(
                workers,
                selector,
                n,
            )[k] < n && answers_to(workers[matching(workers, selector, n)[k]], selector),
        forall|j: int|
            0 <= j < n && answers_to(#[trigger] workers[j], selector) ==> matching(
                workers,
                selector,
                n,
            ).contains(j),
    decreases n,
{
    if n > 0 {
        let before = matching(workers, selector, (n - 1) as nat);
        let after = matching(workers, selector, n);
        lemma_matching(workers, selector, (n - 1) as nat);
        assert forall|j: int|
            0 <= j < n && answers_to(#[trigger] workers[j], selector) implies after.contains(j) by {
            if j < n - 1 {
                let k = choose|k: int| 0 <= k < before.len() && before[k] == j;
                assert(after[k] == j);
            } else {
                assert(after.last() == j);
            }
        }
    }
}

/// A selector finds at most one worker: a worker is always found by its own id,
/// and otherwise a worker is found where it is the only one that answers.
pub proof fn law_selectors_find_one_worker(workers: Seq<LabelsView>, selector: Seq<char>)
    ensures
        match resolved(workers, selector) {
            Ok(i) => {
                &&& 0 <= i < workers.len()
                &&& workers[i].worker_id == selector || (answers_to(workers[i], selector)
                    && forall|j: int|
                    0 <= j < workers.len() && answers_to(#[trigger] workers[j], selector) ==> j
                        == i)
            },
            Err(_) => forall|j: int|
                0 <= j < workers.len() ==> (#[trigger] workers[j]).worker_id != selector,
        },
{
    lemma_exact(workers, selector);
    lemma_matching(workers, selector, workers.len());
    let found = matching(workers, selector, workers.len());
    if exact(workers, selector) is None && found.len() == 1 {
        assert forall|j: int|
            0 <= j < workers.len() && answers_to(#[trigger] workers[j], selector) implies j
            == found[0] by {
            assert(found.contains(j));
        }
    }
}

/// The answer to a command whose session was not found.
pub fn unknown_session(command: &DaemonCommand, command_id: &str) -> (r: Json)
    ensures
        r@ == line_of(
            failure(
                Some(command_id@),
                wire_name(command.kind),
                "Unknown active session: "@ + or_empty(session_selector(command@)),
            ),
        ),
{
    let selector = match command_active_session_id(command) {
        Some(selector) => selector.to_owned(),
        None => String::new(),
    };
    response_line(
        &response_failure(
            Some(command_id),
            command_type_name(command),
            concat2("Unknown active session: ", selector.as_str()).as_str(),
            None,
        ),
    )
}

/// Whether a new session may take a name, given what the live sessions report.
pub open spec fn name_refusal(name: Seq<char>, states: Seq<JsonView>) -> Option<Seq<char>> {
    if trim(name).len() == 0 {
        Some("Session name cannot be empty"@)
    } else if exists|i: int|
        0 <= i < states.len() && or_empty((#[trigger] states[i]).get_str("sessionName"@)) == name {
        Some("Session name \""@ + name + "\" is unavailable for depth 0"@)
    } else {
        None
    }
}

/// Whether a new session may take a name: it must not be blank, nor be the name
/// of a live session.
pub fn assert_session_name_available(name: &str, states: &Vec<Json>) -> (r: Result<(), String>)
    ensures
        match r {
            Ok(_) => name_refusal(name@, items_view(states@)) is None,
            Err(message) => name_refusal(name@, items_view(states@)) == Some(message@),
        },
{
    if is_empty_text(trim_text(name).as_str()) {
        return Err("Session name cannot be empty".to_owned());
    }
    let ghost all = items_view(states@);
    proof {
        lemma_items_view(states@);
    }
    let mut i: usize = 0;
    while i < states.len()
        invariant
            i <= states@.len(),
            all.len() == states@.len(),
            all == items_view(states@),
            forall|j: int| 0 <= j < states@.len() ==> #[trigger] all[j] == states@[j]@,
            forall|j: int|
                0 <= j < i ==> or_empty((#[trigger] all[j]).get_str("sessionName"@)) != name@,
            trim(name@).len() != 0,
        decreases states@.len() - i,
    {
        let session_name = states[i].get_string_or_empty("sessionName");
        if same_text(session_name.as_str(), name) {
            assert(or_empty(all[i as int].get_str("sessionName"@)) == name@);
            return Err(concat3("Session name \"", name, "\" is unavailable for depth 0"));
        }
        i = i + 1;
    }
    Ok(())
}

/// The answer to a create.
pub open spec fn created_json(response: DaemonResponse, worker_id: Seq<char>) -> JsonView {
    match response.data {
        Some(data) => data@,
        None => JsonView::object().field("id"@, JsonView::Str(worker_id)),
    }
}

/// The answer to a create: the state the worker reports, or its id where it
/// reports none.
pub fn create_answer(response: &DaemonResponse, worker_id: &str) -> (r: Json)
    ensures
        r@ == created_json(*response, worker_id@),
{
    match &response.data {
        Some(data) => data.duplicate(),
        None => Json::object().field("id", Json::string(worker_id)),
    }
}

// ---------------------------------------------------------------------------
// Session rows
// ---------------------------------------------------------------------------

/// What a scan of a saved session found.
#[derive(Debug, PartialEq, Eq)]
pub struct SessionInfo {
    pub path: String,
    pub id: String,
    pub cwd: String,
    pub name: Option<String>,
    pub rlm_depth: u64,
    pub created: String,
    pub modified: String,
    pub message_count: u64,
    pub first_message: String,
    pub parent_session_path: Option<String>,
    pub model: Option<(String, String)>,
    pub state: Option<String>,
}

/// The mathematical value behind a [`SessionInfo`].
#[verifier::ext_equal]
pub struct InfoView {
    pub path: Seq<char>,
    pub id: Seq<char>,
    pub cwd: Seq<char>,
    pub name: Option<Seq<char>>,
    pub rlm_depth: u64,
    pub created: Seq<char>,
    pub modified: Seq<char>,
    pub message_count: u64,
    pub first_message: Seq<char>,
    pub parent_session_path: Option<Seq<char>>,
    pub model: Option<(Seq<char>, Seq<char>)>,
    pub state: Option<Seq<char>>,
}

impl View for SessionInfo {
    type V = InfoView;

    open spec fn view(&self) -> InfoView {
        InfoView {
            path: self.path@,
            id: self.id@,
            cwd: self.cwd@,
            name: opt_text(self.name),
            rlm_depth: self.rlm_depth,
            created: self.created@,
            modified: self.modified@,
            message_count: self.message_count,
            first_message: self.first_message@,
            parent_session_path: opt_text(self.parent_session_path),
            model: match self.model {
                Some((provider, id)) => Some((provider@, id@)),
                None => None,
            },
            state: opt_text(self.state),
        }
    }
}

/// The values of a run of scans.
pub open spec fn infos_of(infos: Seq<SessionInfo>) -> Seq<InfoView> {
    Seq::new(infos.len(), |i: int| infos[i]@)
}

/// The actions of a session without work.
pub open spec fn no_actions() -> JsonView {
    JsonView::object().field("queuedCount"@, JsonView::uint(0)).field(
        "steering"@,
        JsonView::Array(Seq::empty()),
    ).field("followUps"@, JsonView::Array(Seq::empty()))
}

fn no_actions_json() -> (r: Json)
    ensures
        r@ == no_actions(),
{
    Json::object().field("queuedCount", Json::uint(0)).field("steering", Json::empty_array()).field(
        "followUps",
        Json::empty_array(),
    )
}

/// The summary of a saved session.
pub open spec fn summary_of(info: InfoView) -> JsonView {
    JsonView::object().field("id"@, JsonView::Str(info.id)).field(
        "lifecycle"@,
        JsonView::Str("resident"@),
    ).field("activity"@, JsonView::Str("idle"@)).field(
        "isSessionActive"@,
        JsonView::Bool(false),
    ).field("activeSessionId"@, JsonView::Str(info.id)).field(
        "sessionId"@,
        JsonView::Str(info.id),
    ).field("sessionFile"@, JsonView::Str(info.path)).field(
        "sessionName"@,
        crate::json::or_null(opt_string(info.name)),
    ).field("cwd"@, JsonView::Str(info.cwd)).field("isStreaming"@, JsonView::Bool(false)).field(
        "isCompacting"@,
        JsonView::Bool(false),
    ).field("attachedClients"@, JsonView::uint(0)).field(
        "messageCount"@,
        JsonView::uint(info.message_count),
    ).field("sessionActions"@, no_actions()).field("created"@, JsonView::Str(info.created)).field(
        "modified"@,
        JsonView::Str(info.modified),
    ).field("firstMessage"@, JsonView::Str(info.first_message))
}

fn string_or_null(text: &Option<String>) -> (r: Json)
    ensures
        r@ == crate::json::or_null(opt_string(opt_text(*text))),
{
    match text {
        Some(text) => Json::string(text.as_str()),
        None => Json::Null,
    }
}

/// The summary of a saved session.
pub fn saved_session_summary(info: &SessionInfo) -> (r: Json)
    ensures
        r@ == summary_of(info@),
{
    Json::object().field("id", Json::string(info.id.as_str())).field(
        "lifecycle",
        Json::string("resident"),
    ).field("activity", Json::string("idle")).field("isSessionActive", Json::Bool(false)).field(
        "activeSessionId",
        Json::string(info.id.as_str()),
    ).field("sessionId", Json::string(info.id.as_str())).field(
        "sessionFile",
        Json::string(info.path.as_str()),
    ).field("sessionName", string_or_null(&info.name)).field(
        "cwd",
        Json::string(info.cwd.as_str()),
    ).field("isStreaming", Json::Bool(false)).field("isCompacting", Json::Bool(false)).field(
        "attachedClients",
        Json::uint(0),
    ).field("messageCount", Json::uint(info.message_count)).field(
        "sessionActions",
        no_actions_json(),
    ).field("created", Json::string(info.created.as_str())).field(
        "modified",
        Json::string(info.modified.as_str()),
    ).field("firstMessage", Json::string(info.first_message.as_str()))
}

/// The summary of a worker that did not answer.
pub open spec fn offline_of(worker_id: Seq<char>) -> JsonView {
    JsonView::object().field("id"@, JsonView::Str(worker_id)).field(
        "lifecycle"@,
        JsonView::Str("recovering"@),
    ).field("activity"@, JsonView::Str("idle"@)).field(
        "isSessionActive"@,
        JsonView::Bool(false),
    ).field("sessionId"@, JsonView::Str(""@)).field("cwd"@, JsonView::Str(""@)).field(
        "isStreaming"@,
        JsonView::Bool(false),
    ).field("isCompacting"@, JsonView::Bool(false)).field(
        "attachedClients"@,
        JsonView::uint(0),
    ).field("messageCount"@, JsonView::uint(0)).field("sessionActions"@, no_actions())
}

/// The summary of a worker that did not answer.
pub fn offline_summary(worker_id: &str) -> (r: Json)
    ensures
        r@ == offline_of(worker_id@),
{
    Json::object().field("id", Json::string(worker_id)).field(
        "lifecycle",
        Json::string("recovering"),
    ).field("activity", Json::string("idle")).field("isSessionActive", Json::Bool(false)).field(
        "sessionId",
        Json::string(""),
    ).field("cwd", Json::string("")).field("isStreaming", Json::Bool(false)).field(
        "isCompacting",
        Json::Bool(false),
    ).field("attachedClients", Json::uint(0)).field("messageCount", Json::uint(0)).field(
        "sessionActions",
        no_actions_json(),
    )
}

/// The row of a saved session.
pub open spec fn row_of(info: InfoView) -> JsonView {
    JsonView::object().field("path"@, JsonView::Str(info.path)).field(
        "id"@,
        JsonView::Str(info.id),
    ).field("cwd"@, JsonView::Str(info.cwd)).field("rlmDepth"@, JsonView::uint(info.rlm_depth)).field(
        "created"@,
        JsonView::Str(info.created),
    ).field("modified"@, JsonView::Str(info.modified)).field(
        "messageCount"@,
        JsonView::uint(info.message_count),
    ).field("firstMessage"@, JsonView::Str(info.first_message)).field(
        "allMessagesText"@,
        JsonView::Str(""@),
    ).field(
        "state"@,
        match info.state {
            Some(state) => JsonView::object().field("status"@, JsonView::Str(state)),
            None => JsonView::Null,
        },
    ).field_opt("name"@, opt_string(info.name)).field_opt(
        "parentSessionPath"@,
        opt_string(info.parent_session_path),
    ).field_opt(
        "model"@,
        match info.model {
            Some((provider, id)) => Some(
                JsonView::object().field("provider"@, JsonView::Str(provider)).field(
                    "modelId"@,
                    JsonView::Str(id),
                ),
            ),
            None => None,
        },
    )
}

/// The row of a saved session.
pub fn saved_session_row(info: &SessionInfo) -> (r: Json)
    ensures
        r@ == row_of(info@),
{
    let state = match &info.state {
        Some(state) => Json::object().field("status", Json::string(state.as_str())),
        None => Json::Null,
    };
    let model = match &info.model {
        Some((provider, id)) => Some(
            Json::object().field("provider", Json::string(provider.as_str())).field(
                "modelId",
                Json::string(id.as_str()),
            ),
        ),
        None => None,
    };
    Json::object().field("path", Json::string(info.path.as_str())).field(
        "id",
        Json::string(info.id.as_str()),
    ).field("cwd", Json::string(info.cwd.as_str())).field("rlmDepth", Json::uint(info.rlm_depth)).field(
        "created",
        Json::string(info.created.as_str()),
    ).field("modified", Json::string(info.modified.as_str())).field(
        "messageCount",
        Json::uint(info.message_count),
    ).field("firstMessage", Json::string(info.first_message.as_str())).field(
        "allMessagesText",
        Json::string(""),
    ).field("state", state).field_opt_str("name", as_opt_str(&info.name)).field_opt_str(
        "parentSessionPath",
        as_opt_str(&info.parent_session_path),
    ).field_opt("model", model)
}

/// Where a saved-session listing looks: the working directory it is about, and
/// the session directory where one is given.
#[derive(Debug, PartialEq, Eq)]
pub struct ListingPlace {
    pub cwd: String,
    pub session_dir: Option<String>,
}

/// Whether a place, or the refusal of one, is where a saved-session listing looks.
pub open spec fn is_listing_place(
    result: Result<ListingPlace, String>,
    wire: JsonView,
    resident: Option<&WorkerDescriptor>,
) -> bool {
    match wire.get_str("activeSessionId"@) {
        Some(active) => match resident {
            Some(descriptor) => result is Ok && result->Ok_0.cwd@ == (match descriptor@.create_rest.get_str(
                "cwd"@,
            ) {
                Some(cwd) => cwd,
                None => "/"@,
            }) && opt_text(result->Ok_0.session_dir) == descriptor@.create_rest.get_str(
                "sessionDir"@,
            ),
            None => result is Err && result->Err_0@ == "Unknown active session: "@ + active,
        },
        None => match wire.get_str("cwd"@) {
            Some(cwd) => result is Ok && result->Ok_0.cwd@ == cwd && opt_text(result->Ok_0.session_dir)
                == wire.get_str("sessionDir"@),
            None => result is Err && result->Err_0@
                == "The \"paths[0]\" property must be of type string, got undefined"@,
        },
    }
}

/// Where a saved-session listing looks, or why it cannot. A listing that names
/// a session looks where that session's worker was created; any other listing
/// names its working directory itself.
pub fn saved_list_place(command: &DaemonCommand, resident: Option<&WorkerDescriptor>) -> (r: Result<
    ListingPlace,
    String,
>)
    ensures
        is_listing_place(r, command@.wire, resident),
{
    match command.wire.get_str("activeSessionId") {
        Some(active) => match resident {
            Some(descriptor) => {
                let rest = &descriptor.create_command.rest;
                let cwd = match rest.get_str("cwd") {
                    Some(cwd) => cwd.to_owned(),
                    None => "/".to_owned(),
                };
                Ok(ListingPlace { cwd, session_dir: rest.get_string("sessionDir") })
            },
            None => Err(concat2("Unknown active session: ", active)),
        },
        None => match command.wire.get_str("cwd") {
            Some(cwd) => Ok(
                ListingPlace {
                    cwd: cwd.to_owned(),
                    session_dir: command.wire.get_string("sessionDir"),
                },
            ),
            None => Err(
                "The \"paths[0]\" property must be of type string, got undefined".to_owned(),
            ),
        },
    }
}

/// The infos of one working directory.
pub open spec fn infos_in(infos: Seq<InfoView>, cwd: Seq<char>) -> Seq<InfoView>
    decreases infos.len(),
{
    if infos.len() == 0 {
        Seq::empty()
    } else {
        let before = infos_in(infos.drop_last(), cwd);
        if infos.last().cwd == cwd {
            before.push(infos.last())
        } else {
            before
        }
    }
}

/// The positions of the infos to list: all of them, or those of one working
/// directory.
fn listed(infos: &Vec<SessionInfo>, cwd: Option<&str>) -> (r: Vec<usize>)
    ensures
        ({
            let wanted = match cwd {
                Some(cwd) => infos_in(infos_of(infos@), cwd@),
                None => infos_of(infos@),
            };
            &&& r@.len() == wanted.len()
            &&& forall|k: int|
                0 <= k < r@.len() ==> (#[trigger] r@[k]) < infos@.len() && infos@[r@[k] as int]@
                    == wanted[k]
        }),
{
    let ghost all = infos_of(infos@);
    let mut out: Vec<usize> = Vec::new();
    let mut i: usize = 0;
    assert(all.take(0) =~= Seq::empty());
    while i < infos.len()
        invariant
            i <= infos@.len(),
            all == infos_of(infos@),
            ({
                let wanted = match cwd {
                    Some(cwd) => infos_in(all.take(i as int), cwd@),
                    None => all.take(i as int),
                };
                &&& out@.len() == wanted.len()
                &&& forall|k: int|
                    0 <= k < out@.len() ==> (#[trigger] out@[k]) < infos@.len()
                        && infos@[out@[k] as int]@ == wanted[k]
            }),
        decreases infos@.len() - i,
    {
        assert(all.take(i + 1).drop_last() =~= all.take(i as int));
        assert(all.take(i + 1).last() == infos@[i as int]@);
        let keep = match cwd {
            Some(cwd) => same_text(infos[i].cwd.as_str(), cwd),
            None => true,
        };
        if keep {
            out.push(i);
        }
        i = i + 1;
    }
    assert(all.take(i as int) =~= all);
    out
}

/// One streamed row of a listing.
pub open spec fn item_line(id: Seq<char>, active: Option<Seq<char>>, info: InfoView) -> JsonView {
    JsonView::object().field("id"@, JsonView::Str(id)).field(
        "type"@,
        JsonView::Str("session_list_item"@),
    ).field("command"@, JsonView::Str("list_saved_sessions"@)).field("session"@, row_of(info)).field_opt(
        "activeSessionId"@,
        opt_string(active),
    )
}

/// One progress line of a listing.
pub open spec fn progress_line(
    id: Seq<char>,
    active: Option<Seq<char>>,
    loaded: nat,
    total: nat,
) -> JsonView {
    JsonView::object().field("id"@, JsonView::Str(id)).field(
        "type"@,
        JsonView::Str("session_list_progress"@),
    ).field("command"@, JsonView::Str("list_saved_sessions"@)).field(
        "loaded"@,
        JsonView::uint(loaded as u64),
    ).field("total"@, JsonView::uint(total as u64)).field_opt(
        "activeSessionId"@,
        opt_string(active),
    )
}

/// The lines of the first `n` rows: each row, then how many are loaded.
pub open spec fn streamed_lines(
    id: Seq<char>,
    active: Option<Seq<char>>,
    infos: Seq<InfoView>,
    n: nat,
) -> Seq<JsonView>
    decreases n,
{
    if n == 0 {
        Seq::empty()
    } else {
        streamed_lines(id, active, infos, (n - 1) as nat).push(
            item_line(id, active, infos[n - 1]),
        ).push(progress_line(id, active, n, infos.len()))
    }
}

/// The rows of a run of infos.
pub open spec fn rows_of(infos: Seq<InfoView>) -> Seq<JsonView> {
    Seq::new(infos.len(), |i: int| row_of(infos[i]))
}

/// All lines of a saved-session listing: the streamed rows, then the response
/// with all of them.
pub open spec fn listing_lines(
    id: Seq<char>,
    active: Option<Seq<char>>,
    infos: Seq<InfoView>,
) -> Seq<JsonView> {
    streamed_lines(id, active, infos, infos.len()).push(
        line_of(
            success(
                Some(id),
                "list_saved_sessions"@,
                Some(
                    JsonView::object().field("sessions"@, JsonView::Array(rows_of(infos))),
                ),
            ),
        ),
    )
}

/// The infos a listing is about.
pub open spec fn listing_infos(infos: Seq<InfoView>, scope_current: bool, cwd: Seq<char>) -> Seq<
    InfoView,
> {
    if scope_current {
        infos_in(infos, cwd)
    } else {
        infos
    }
}

/// The lines of a listing of the saved sessions.
pub open spec fn saved_lines(
    command: DaemonCommand,
    command_id: Seq<char>,
    cwd: Seq<char>,
    infos: Seq<SessionInfo>,
) -> Seq<JsonView> {
    if command.kind != CommandKind::ListSavedSessions {
        Seq::empty()
    } else {
        listing_lines(
            command_id,
            command@.wire.get_str("activeSessionId"@),
            listing_infos(
                infos_of(infos),
                command@.wire.get_str("scope"@) == Some("current"@),
                cwd,
            ),
        )
    }
}

/// The lines of a saved-session listing, given what the scan found. A listing
/// of the current scope leaves out the sessions of other directories, and any
/// other command has no lines.
#[verifier::rlimit(40)]
pub fn handle_saved_session_list(
    command: &DaemonCommand,
    command_id: &str,
    cwd: &str,
    infos: &Vec<SessionInfo>,
) -> (r: Vec<Json>)
    ensures
        items_view(r@) == saved_lines(*command, command_id@, cwd@, infos@),
{
    if command.kind != CommandKind::ListSavedSessions {
        let none: Vec<Json> = Vec::new();
        proof {
            lemma_items_view(none@);
            assert(items_view(none@) =~= Seq::empty());
        }
        return none;
    }
    let scope_current = crate::text::is_text(command.wire.get_str("scope"), "current");
    let active = command.wire.get_string("activeSessionId");
    let positions = listed(
        infos,
        if scope_current {
            Some(cwd)
        } else {
            None
        },
    );
    let total = positions.len();
    let ghost wanted = listing_infos(infos_of(infos@), scope_current, cwd@);
    let ghost id = command_id@;
    let ghost on = opt_text(active);
    let mut lines: Vec<Json> = Vec::new();
    let mut rows: Vec<Json> = Vec::new();
    let mut i: usize = 0;
    proof {
        lemma_items_view(lines@);
        lemma_items_view(rows@);
        assert(items_view(lines@) =~= streamed_lines(id, on, wanted, 0));
    }
    while i < positions.len()
        invariant
            i <= positions@.len(),
            total == positions@.len(),
            positions@.len() == wanted.len(),
            id == command_id@,
            on == opt_text(active),
            forall|k: int|
                0 <= k < positions@.len() ==> (#[trigger] positions@[k]) < infos@.len()
                    && infos@[positions@[k] as int]@ == wanted[k],
            items_view(lines@) == streamed_lines(id, on, wanted, i as nat),
            items_view(rows@) == rows_of(wanted).take(i as int),
        decreases positions@.len() - i,
    {
        let info = &infos[positions[i]];
        let item = Json::object().field("id", Json::string(command_id)).field(
            "type",
            Json::string("session_list_item"),
        ).field("command", Json::string("list_saved_sessions")).field(
            "session",
            saved_session_row(info),
        ).field_opt_str("activeSessionId", as_opt_str(&active));
        let progress = Json::object().field("id", Json::string(command_id)).field(
            "type",
            Json::string("session_list_progress"),
        ).field("command", Json::string("list_saved_sessions")).field(
            "loaded",
            Json::uint((i + 1) as u64),
        ).field("total", Json::uint(total as u64)).field_opt_str(
            "activeSessionId",
            as_opt_str(&active),
        );
        let ghost lines_before = lines@;
        let ghost rows_before = rows@;
        assert(item@ == item_line(id, on, wanted[i as int]));
        assert(progress@ == progress_line(id, on, (i + 1) as nat, wanted.len()));
        lines.push(item);
        lines.push(progress);
        rows.push(saved_session_row(info));
        proof {
            assert(lines@.drop_last().drop_last() =~= lines_before);
            assert(rows@.drop_last() =~= rows_before);
            assert(lines@.drop_last() =~= lines_before.push(item));
            reveal_with_fuel(items_view, 3);
            lemma_items_view(lines_before);
            lemma_items_view(lines_before.push(item));
            lemma_items_view(lines@);
            lemma_items_view(rows_before);
            lemma_items_view(rows@);
            assert(items_view(lines@) =~= items_view(lines_before).push(
                item_line(id, on, wanted[i as int]),
            ).push(progress_line(id, on, (i + 1) as nat, wanted.len()))) by {
                assert forall|k: int| 0 <= k < lines@.len() implies #[trigger] items_view(
                    lines@,
                )[k] == items_view(lines_before).push(item_line(id, on, wanted[i as int])).push(
                    progress_line(id, on, (i + 1) as nat, wanted.len()),
                )[k] by {
                    if k < lines_before.len() {
                        assert(lines@[k] == lines_before[k]);
                        assert(items_view(lines_before)[k] == lines_before[k]@);
                    }
                }
            }
            assert(items_view(rows@) =~= rows_of(wanted).take(i + 1)) by {
                assert forall|k: int| 0 <= k < rows@.len() implies #[trigger] items_view(
                    rows@,
                )[k] == rows_of(wanted).take(i + 1)[k] by {
                    if k < rows_before.len() {
                        assert(rows@[k] == rows_before[k]);
                        assert(items_view(rows_before)[k] == rows_before[k]@);
                        assert(rows_of(wanted).take(i as int)[k] == row_of(wanted[k]));
                    }
                }
            }
        }
        i = i + 1;
    }
    assert(rows_of(wanted).take(i as int) =~= rows_of(wanted));
    let data = Json::object().field("sessions", Json::array(rows));
    let last = response_line(
        &response_success(Some(command_id), "list_saved_sessions", Some(data)),
    );
    let ghost lines_before = lines@;
    lines.push(last);
    proof {
        assert(lines@.drop_last() =~= lines_before);
        assert(items_view(lines@) =~= items_view(lines_before).push(last@));
    }
    lines
}

/// The answer to a listing of all saved sessions.
pub open spec fn saved_answer(
    result: ResponseView,
    command: DaemonCommand,
    command_id: Seq<char>,
    infos: Seq<SessionInfo>,
) -> bool {
    ({
        let shown = match command@.wire.get_str("cwd"@) {
            Some(cwd) => infos_in(infos_of(infos), cwd),
            None => infos_of(infos),
        };
        result == success(
            Some(command_id),
            wire_name(command.kind),
            Some(
                JsonView::object().field(
                    "sessions"@,
                    JsonView::Array(Seq::new(shown.len(), |i: int| summary_of(shown[i]))),
                ),
            ),
        )
    })
}

/// The saved sessions a listing of all sessions shows: those of the working
/// directory it names, or all.
pub fn list_saved(
    command: &DaemonCommand,
    command_id: &str,
    infos: &Vec<SessionInfo>,
) -> (r: DaemonResponse)
    ensures
        saved_answer(r@, *command, command_id@, infos@),
{
    let positions = listed(infos, command.wire.get_str("cwd"));
    let ghost shown = match command@.wire.get_str("cwd"@) {
        Some(cwd) => infos_in(infos_of(infos@), cwd),
        None => infos_of(infos@),
    };
    let mut rows: Vec<Json> = Vec::new();
    let mut i: usize = 0;
    while i < positions.len()
        invariant
            i <= positions@.len(),
            positions@.len() == shown.len(),
            forall|k: int|
                0 <= k < positions@.len() ==> (#[trigger] positions@[k]) < infos@.len()
                    && infos@[positions@[k] as int]@ == shown[k],
            rows@.len() == i,
            forall|k: int| 0 <= k < i ==> (#[trigger] rows@[k])@ == summary_of(shown[k]),
        decreases positions@.len() - i,
    {
        rows.push(saved_session_summary(&infos[positions[i]]));
        i = i + 1;
    }
    proof {
        lemma_items_view(rows@);
        assert(items_view(rows@) =~= Seq::new(shown.len(), |i: int| summary_of(shown[i])));
    }
    response_success(
        Some(command_id),
        command_type_name(command),
        Some(Json::object().field("sessions", Json::array(rows))),
    )
}

/// The row of a live worker: the state it reported, nothing where it reported
/// none, and the offline summary where it did not answer well.
pub open spec fn live_row_of(worker_id: Seq<char>, response: Option<DaemonResponse>) -> Option<
    JsonView,
> {
    match response {
        Some(response) => if response.success {
            opt_view(response.data)
        } else {
            Some(offline_of(worker_id))
        },
        None => Some(offline_of(worker_id)),
    }
}

/// The row of a live worker.
pub fn live_row(worker_id: &str, response: Option<&DaemonResponse>) -> (r: Option<Json>)
    ensures
        opt_view(r) == live_row_of(
            worker_id@,
            match response {
                Some(response) => Some(*response),
                None => None,
            },
        ),
{
    match response {
        Some(response) => if response.success {
            crate::json::duplicate_opt(&response.data)
        } else {
            Some(offline_summary(worker_id))
        },
        None => Some(offline_summary(worker_id)),
    }
}

/// The rows of a listing of the live workers, in the order they were asked: each
/// worker with what it answered.
pub open spec fn live_rows(answers: Seq<(String, Option<DaemonResponse>)>) -> Seq<JsonView>
    decreases answers.len(),
{
    if answers.len() == 0 {
        Seq::empty()
    } else {
        let before = live_rows(answers.drop_last());
        match live_row_of(answers.last().0@, answers.last().1) {
            Some(row) => before.push(row),
            None => before,
        }
    }
}

/// The answer to a listing of the live workers.
pub open spec fn list_answer(
    command: DaemonCommand,
    command_id: Seq<char>,
    answers: Seq<(String, Option<DaemonResponse>)>,
) -> ResponseView {
    success(
        Some(command_id),
        wire_name(command.kind),
        Some(JsonView::object().field("sessions"@, JsonView::Array(live_rows(answers)))),
    )
}

/// The answer to a listing of the live workers.
pub fn handle_list(
    command: &DaemonCommand,
    command_id: &str,
    answers: &Vec<(String, Option<DaemonResponse>)>,
) -> (r: DaemonResponse)
    ensures
        r@ == list_answer(*command, command_id@, answers@),
{
    let mut rows: Vec<Json> = Vec::new();
    let mut i: usize = 0;
    assert(items_view(rows@) =~= live_rows(answers@.take(0)));
    while i < answers.len()
        invariant
            i <= answers@.len(),
            items_view(rows@) == live_rows(answers@.take(i as int)),
        decreases answers@.len() - i,
    {
        let ghost before = items_view(rows@);
        let (worker_id, response) = &answers[i];
        let row = live_row(
            worker_id.as_str(),
            match response {
                Some(response) => Some(response),
                None => None,
            },
        );
        assert(answers@.take(i + 1).drop_last() =~= answers@.take(i as int));
        match row {
            Some(row) => {
                let ghost added = row@;
                let ghost rows_before = rows@;
                rows.push(row);
                proof {
                    assert(rows@.drop_last() =~= rows_before);
                    assert(items_view(rows@) =~= before.push(added));
                }
            },
            None => {},
        }
        i = i + 1;
    }
    assert(answers@.take(i as int) =~= answers@);
    response_success(
        Some(command_id),
        command_type_name(command),
        Some(Json::object().field("sessions", Json::array(rows))),
    )
}

} // verus!

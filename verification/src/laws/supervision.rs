//! Laws of workers: how they are launched, watched and kept.
use vstd::prelude::*;

use crate::json::{group_members, opt_view, or_empty, JsonView};
use crate::paths::joined;
use crate::protocol::{CommandKind, DaemonCommand, DaemonResponse};
use crate::supervisor::{
    adoption, auth_json, backoff_of, config_str, created_descriptor, created_json, detach_json,
    durable_rest, exit_decision, generation_of, header_json, hello_json, is_auth_verdict,
    is_launch, is_planned, is_recent_verdict, is_relaunched, is_spawn_look, labels_with,
    launch_step, new_descriptor, plan_of, relaunch_begun, relaunch_step, watch_of_adopted,
    watch_step, AdoptAction, BASE_BACKOFF_MS, DaemonWorkerLifecycle, DescriptorView, ExitDecision,
    HelloFacts, LaunchActionView, LaunchEvent, LaunchFacts, LaunchPlan, LaunchStage,
    LIVENESS_POLL_MS, MAX_BACKOFF_MS, MAX_CONSECUTIVE_FAILURES, PlanView, RelaunchVerdict,
    SpawnWait, Watch, WatchAction, WatchEvent, WatchMode, WorkerDescriptor, WorkerLaunch,
};
use crate::text::{decimal, opt_text};

verus! {

/// The pause before a restart is the first one, and twice the pause before it as
/// long as that is no longer than the longest.
pub proof fn law_pauses_double(failures: nat)
    requires
        1 <= failures,
    ensures
        backoff_of(1) == BASE_BACKOFF_MS,
        failures < 7 ==> backoff_of(failures + 1) == 2 * backoff_of(failures),
        failures >= 8 ==> backoff_of(failures) == MAX_BACKOFF_MS,
{
    use_pow2();
    vstd::arithmetic::power2::lemma2_to64();
}

proof fn use_pow2()
    ensures
        vstd::arithmetic::power2::pow2(0) == 1,
{
    vstd::arithmetic::power2::lemma2_to64();
}

/// An exit that was asked for is never restarted; any other counts as one more
/// failure, and is restarted after its pause exactly where the count is within the
/// bound.
pub proof fn law_exits_are_counted(failures: u32, stopping: bool)
    requires
        failures < u32::MAX,
    ensures
        exit_decision(failures, stopping) == ExitDecision::Stop <==> stopping,
        exit_decision(failures, stopping) matches ExitDecision::Restart {
            failures: counted,
            backoff_ms,
        } ==> counted == failures + 1 && counted <= MAX_CONSECUTIVE_FAILURES && backoff_ms
            == backoff_of(counted as nat) as u64,
        exit_decision(failures, stopping) matches ExitDecision::GiveUp { failures: counted }
            ==> counted == failures + 1 && counted > MAX_CONSECUTIVE_FAILURES,
        !stopping && failures < MAX_CONSECUTIVE_FAILURES ==> exit_decision(
            failures,
            stopping,
        ) is Restart,
        !stopping && failures >= MAX_CONSECUTIVE_FAILURES ==> exit_decision(
            failures,
            stopping,
        ) is GiveUp,
{
}

/// A worker that is alive is only looked at again, one that is gone is relaunched,
/// given up on or let go, a relaunch that came up is waited for as a child without
/// failures, and one that failed counts on as a process that is gone.
pub proof fn law_watchers_follow_the_worker(watch: Watch, stopping: bool)
    requires
        watch.failures < u32::MAX,
    ensures
        watch_step(watch, WatchEvent::Alive, stopping).0 == watch,
        watch_step(watch, WatchEvent::Alive, false).1 == (WatchAction::PollAfter {
            ms: LIVENESS_POLL_MS,
        }),
        watch_step(watch, WatchEvent::Alive, true).1 == WatchAction::Stop,
        watch_step(watch, WatchEvent::Gone, true).1 == WatchAction::Stop,
        watch.failures < MAX_CONSECUTIVE_FAILURES ==> watch_step(watch, WatchEvent::Gone, false) == (
            Watch { failures: (watch.failures + 1) as u32, ..watch },
            WatchAction::RelaunchAfter { ms: backoff_of((watch.failures + 1) as nat) as u64 },
        ),
        watch.failures >= MAX_CONSECUTIVE_FAILURES ==> watch_step(watch, WatchEvent::Gone, false).1
            == WatchAction::GiveUp,
        watch_step(watch, WatchEvent::Relaunched, stopping) == (
            Watch { mode: WatchMode::Child, failures: 0 },
            WatchAction::Wait,
        ),
        watch_step(watch, WatchEvent::RelaunchFailed, stopping).0 == (Watch {
            mode: WatchMode::Process { pid: 0 },
            failures: watch.failures,
        }),
        watch_step(watch, WatchEvent::RelaunchFailed, stopping).1 == WatchAction::Wait,
{
}

/// A launch is planned as the create asks: in the configured directory, else in
/// the supervisor's own, else at the root, and with everything else it names.
pub proof fn law_launches_are_planned_as_asked(wire: JsonView, current_dir: Option<Seq<char>>)
    ensures
        ({
            let plan = plan_of(wire, current_dir);
            &&& config_str(wire, "cwd"@) matches Some(cwd) ==> plan.cwd == cwd
            &&& config_str(wire, "cwd"@) is None && current_dir is Some ==> plan.cwd
                == current_dir->0
            &&& config_str(wire, "cwd"@) is None && current_dir is None ==> plan.cwd == "/"@
            &&& plan.session_dir == config_str(wire, "sessionDir"@)
            &&& plan.script == config_str(wire, "script"@)
            &&& plan.name == wire.get_str("name"@)
            &&& plan.session_path == wire.get_str("sessionPath"@)
            &&& plan.no_session == wire.get_bool("noSession"@)
            &&& plan.continue_recent <==> wire.get_bool("continueRecent"@) == Some(true)
        }),
        forall|key: Seq<char>| #[trigger]
            config_str(wire, key) == (match wire.get("config"@) {
                Some(config) => config.get_str(key),
                None => None,
            }),
{
}

/// A worker is relaunched from what it was launched with: its durable create names
/// the directory, the session directory, the name and the script of its plan.
pub proof fn law_durable_creates_keep_the_plan(plan: PlanView)
    ensures
        durable_rest(plan).carries("cwd"@, JsonView::Str(plan.cwd)),
        plan.session_dir matches Some(dir) ==> durable_rest(plan).carries(
            "sessionDir"@,
            JsonView::Str(dir),
        ),
        plan.name matches Some(name) ==> durable_rest(plan).carries("name"@, JsonView::Str(name)),
        plan.script matches Some(script) ==> durable_rest(plan).carries(
            "script"@,
            JsonView::Str(script),
        ),
{
    broadcast use group_members;

}

/// A new worker's descriptor is its own: its id, socket and secrets, the session
/// that its plan opens, the client that owns it, and no failure yet.
pub proof fn law_new_descriptors_are_the_plans(plan: PlanView, facts: LaunchFacts)
    ensures
        ({
            let descriptor = new_descriptor(plan, facts);
            &&& descriptor.worker_id == facts.worker_id@
            &&& descriptor.root_active_session_id == facts.worker_id@
            &&& descriptor.socket_path == facts.worker_socket@
            &&& descriptor.supervisor_socket_path == facts.supervisor_socket@
            &&& descriptor.authentication_token == facts.authentication_token@
            &&& descriptor.worker_instance_id == Some(facts.worker_instance_id@)
            &&& descriptor.owner_client_id == opt_text(facts.owner_client_id)
            &&& descriptor.recovery_journal_path == joined(
                facts.descriptor_dir@,
                facts.worker_id@ + ".recovery.jsonl"@,
            )
            &&& descriptor.session_file == plan.session_path
            &&& descriptor.create_session_path == plan.session_path
            &&& descriptor.create_no_session == plan.no_session
            &&& descriptor.session_dir == plan.session_dir
            &&& descriptor.create_rest == durable_rest(plan)
            &&& descriptor.lifecycle == DaemonWorkerLifecycle::Starting
            &&& descriptor.consecutive_failures == 0
            &&& descriptor.last_failure_at is None
            &&& descriptor.last_error is None
            &&& descriptor.pid == 0
            &&& descriptor.version == 2
            &&& descriptor.created_at == facts.now@
            &&& descriptor.updated_at == facts.now@
            &&& descriptor.root_session_id is None
        }),
{
}

/// A create that succeeded changes only what it reports: the worker is ready, and
/// its session and file are those that the create reported.
pub proof fn law_created_workers_keep_their_identity(before: DescriptorView, data: JsonView)
    ensures
        ({
            let after = created_descriptor(before, Some(data));
            &&& after.lifecycle == DaemonWorkerLifecycle::Ready
            &&& after.root_session_id == data.get_str("sessionId"@)
            &&& data.get_str("sessionFile"@) matches Some(file) ==> after.session_file == Some(file)
                && after.create_session_path == Some(file)
            &&& data.get_str("sessionFile"@) is None ==> after.session_file == before.session_file
                && after.create_session_path == before.create_session_path
            &&& after == (DescriptorView {
                lifecycle: after.lifecycle,
                root_session_id: after.root_session_id,
                session_file: after.session_file,
                create_session_path: after.create_session_path,
                ..before
            })
        }),
        created_descriptor(before, None) == (DescriptorView {
            lifecycle: DaemonWorkerLifecycle::Ready,
            ..before
        }),
{
}

/// A launch goes from the spawn over the connection to the create, and only as far
/// as each succeeds; a failed spawn or connection fails it with its own error, and
/// a create that was refused takes the descriptor away.
pub proof fn law_launches_go_in_order(
    descriptor: DescriptorView,
    spawned: Result<(), String>,
    connected: Result<(), String>,
    created: Result<crate::protocol::DaemonResponse, String>,
)
    ensures
        ({
            let spawn = launch_step(
                LaunchStage::Spawning,
                descriptor,
                LaunchEvent::Spawned(spawned),
            );
            let connect = launch_step(
                LaunchStage::Connecting,
                descriptor,
                LaunchEvent::Connected(connected),
            );
            let create = launch_step(
                LaunchStage::Creating,
                descriptor,
                LaunchEvent::Created(created),
            );
            &&& spawned is Ok ==> spawn.0 == LaunchStage::Connecting && spawn.1
                == LaunchActionView::Connect
            &&& spawned matches Err(error) ==> spawn.0 == LaunchStage::Over && spawn.1
                == LaunchActionView::Fail(error@)
            &&& connected is Ok ==> connect.0 == LaunchStage::Creating && connect.1
                == LaunchActionView::Create
            &&& connected matches Err(error) ==> connect.0 == LaunchStage::Over && connect.1
                == LaunchActionView::Fail(error@)
            &&& create.0 == LaunchStage::Over
            &&& created matches Err(error) ==> create.1 == LaunchActionView::Fail(error@)
            &&& created matches Ok(response) ==> (response.success ==> create.1
                == LaunchActionView::Register && create.2 == created_descriptor(
                descriptor,
                opt_view(response.data),
            )) && (!response.success ==> create.1 == LaunchActionView::RemoveDescriptor(
                "session worker create failed: "@ + or_empty(opt_text(response.error)),
            ) && create.2 == descriptor)
        }),
{
}

/// A relaunch leaves no process behind: one that was started and could not be
/// connected is killed, and one that came up while the supervisor stops is shut
/// down; only one whose create succeeded is ready again, without failures.
pub proof fn law_relaunches_leave_no_process(
    descriptor: DescriptorView,
    spawned: Result<(), String>,
    connected: Result<(), String>,
    created: Result<crate::protocol::DaemonResponse, String>,
    stopping: bool,
)
    ensures
        ({
            let spawn = relaunch_step(
                LaunchStage::Spawning,
                descriptor,
                LaunchEvent::Spawned(spawned),
                stopping,
            );
            let connect = relaunch_step(
                LaunchStage::Connecting,
                descriptor,
                LaunchEvent::Connected(connected),
                stopping,
            );
            let create = relaunch_step(
                LaunchStage::Creating,
                descriptor,
                LaunchEvent::Created(created),
                stopping,
            );
            &&& spawned is Ok ==> spawn.0 == LaunchStage::Connecting && spawn.1
                == LaunchActionView::Connect
            &&& spawned matches Err(error) ==> spawn.0 == LaunchStage::Over && spawn.1
                == LaunchActionView::Fail(error@)
            &&& connected is Ok ==> connect.0 == LaunchStage::Creating && connect.1
                == LaunchActionView::Create
            &&& connected matches Err(error) ==> connect.0 == LaunchStage::Over && connect.1
                == LaunchActionView::Kill(error@)
            &&& create.0 == LaunchStage::Over
            &&& created matches Err(error) ==> create.1 == LaunchActionView::Fail(error@)
            &&& created is Ok && stopping ==> create.1 == LaunchActionView::ShutDown(
                "supervisor is shutting down"@,
            ) && create.2 == descriptor
            &&& created matches Ok(response) ==> (!stopping ==> (response.success ==> create.1
                == LaunchActionView::Register && create.2 == (DescriptorView {
                lifecycle: DaemonWorkerLifecycle::Ready,
                consecutive_failures: 0,
                ..descriptor
            })) && (!response.success ==> create.1 == LaunchActionView::Fail(
                "worker create failed on relaunch: "@ + or_empty(opt_text(response.error)),
            ) && create.2 == descriptor))
        }),
{
}

/// A worker answers to its own ids, its file's stem and the name it was created
/// under, and to nothing where it has none of them.
pub proof fn law_workers_answer_to_their_own(
    descriptor: WorkerDescriptor,
    stem: Option<Seq<char>>,
)
    ensures
        labels_with(descriptor, stem).worker_id == descriptor.worker_id@,
        labels_with(descriptor, stem).root_id == descriptor.root_active_session_id@,
        labels_with(descriptor, stem).file_stem == or_empty(stem),
        labels_with(descriptor, stem).name == or_empty(
            descriptor.create_command.rest@.get_str("name"@),
        ),
{
}

/// A command frame is sent under its own request id and type.
pub proof fn law_headers_name_the_request(request_id: Seq<char>, command_type: Seq<char>)
    ensures
        header_json(request_id, command_type).carries("kind"@, JsonView::Str("command"@)),
        header_json(request_id, command_type).carries("requestId"@, JsonView::Str(request_id)),
        header_json(request_id, command_type).carries(
            "commandType"@,
            JsonView::Str(command_type),
        ),
{
    broadcast use group_members;

}

/// A client is greeted with the supervisor's socket, process and owner token, the
/// client id it goes by, and the protocol's name and version.
pub proof fn law_greetings_tell_who_serves(facts: HelloFacts, token: Seq<char>)
    ensures
        ({
            let hello = hello_json(facts, token);
            &&& hello.carries("type"@, JsonView::Str("daemon_hello"@))
            &&& hello.carries("socketPath"@, JsonView::Str(facts.socket_path@))
            &&& hello.carries("supervisorSocketPath"@, JsonView::Str(facts.socket_path@))
            &&& hello.carries("clientId"@, JsonView::Str(facts.client_id@))
            &&& hello.carries("supervisorOwnerToken"@, JsonView::Str(token))
            &&& hello.carries("supervisorPid"@, JsonView::uint(facts.pid as u64))
            &&& hello.carries("appVersion"@, JsonView::Str(facts.app_version@))
            &&& hello.carries("schemaId"@, JsonView::Str(facts.schema_id@))
            &&& hello.carries("schemaRevision"@, JsonView::uint(facts.schema_revision))
            &&& hello.carries(
                "supervisorGeneration"@,
                JsonView::Str("sup:"@ + decimal(facts.pid as nat)),
            )
            &&& hello.carries(
                "protocol"@,
                JsonView::object().field(
                    "name"@,
                    JsonView::Str(crate::protocol::DAEMON_PROTOCOL_NAME@),
                ).field("version"@, JsonView::uint(crate::protocol::DAEMON_PROTOCOL_VERSION)),
            )
            &&& opt_text(facts.process_start_id) matches Some(id) ==> hello.carries(
                "supervisorProcessStartId"@,
                JsonView::Str(id),
            )
        }),
        generation_of(facts.pid) == "sup:"@ + decimal(facts.pid as nat),
{
    broadcast use group_members;

}

/// A relaunched worker is ready exactly where its create succeeded and no shutdown came
/// in between: it has no failures then and is otherwise as it was. Else nothing of it
/// changes, and the fresh worker is stopped where the supervisor stops.
pub proof fn law_relaunched_workers_are_ready(
    before: DescriptorView,
    after: DescriptorView,
    verdict: RelaunchVerdict,
    response: DaemonResponse,
    stopping: bool,
)
    requires
        is_relaunched(before, after, verdict, response, stopping),
    ensures
        verdict == RelaunchVerdict::Ready <==> response.success && !stopping,
        verdict is StopFresh <==> stopping,
        verdict != RelaunchVerdict::Ready ==> after == before,
        verdict == RelaunchVerdict::Ready ==> after.lifecycle == DaemonWorkerLifecycle::Ready
            && after.consecutive_failures == 0 && after.worker_id == before.worker_id && after.pid
            == before.pid && after.socket_path == before.socket_path && after.authentication_token
            == before.authentication_token && after.session_file == before.session_file
            && after.create_rest == before.create_rest && after.root_active_session_id
            == before.root_active_session_id,
{
}

/// Only a create is launched, and never one that asks for a session file and for none;
/// every other create is, as it asks.
pub proof fn law_creates_are_planned(
    result: Result<LaunchPlan, String>,
    create: DaemonCommand,
    current_dir: Option<Seq<char>>,
)
    requires
        is_planned(result, create, current_dir),
    ensures
        create.kind != CommandKind::Create ==> result is Err,
        create.kind == CommandKind::Create ==> (result is Err <==> create.wire@.get_bool(
            "noSession"@,
        ) == Some(true) && create.wire@.get_str("sessionPath"@) is Some),
        result matches Ok(plan) ==> plan@.session_path == create.wire@.get_str("sessionPath"@)
            && plan@.no_session == create.wire@.get_bool("noSession"@) && plan@.name
            == create.wire@.get_str("name"@) && (plan@.continue_recent <==> create.wire@.get_bool(
            "continueRecent"@,
        ) == Some(true)),
{
}

/// The supervisor shows a worker the worker's own token, and names itself by its own
/// generation, process and socket.
pub proof fn law_supervisors_show_the_token(
    token: Seq<char>,
    pid: u32,
    process_start_id: Option<Seq<char>>,
    socket_path: Seq<char>,
)
    ensures
        ({
            let payload = auth_json(token, pid, process_start_id, socket_path);
            &&& payload.carries("token"@, JsonView::Str(token))
            &&& payload.carries("supervisorGeneration"@, JsonView::Str(generation_of(pid)))
            &&& payload.carries("supervisorPid"@, JsonView::uint(pid as u64))
            &&& payload.carries("supervisorSocketPath"@, JsonView::Str(socket_path))
            &&& payload.carries("workerInstanceId"@, JsonView::Null)
            &&& process_start_id matches Some(start) ==> payload.carries(
                "supervisorProcessStartId"@,
                JsonView::Str(start),
            )
            &&& process_start_id is None ==> payload.carries(
                "supervisorProcessStartId"@,
                JsonView::Null,
            )
        }),
{
    broadcast use group_members;

}

/// A create is answered with the very state its worker reports, and with the worker's id
/// where it reports none.
pub proof fn law_creates_answer_with_the_state(response: DaemonResponse, worker_id: Seq<char>)
    ensures
        response.data matches Some(data) ==> created_json(response, worker_id) == data@,
        response.data is None ==> created_json(response, worker_id).carries(
            "id"@,
            JsonView::Str(worker_id),
        ),
{
    broadcast use group_members;

}

/// A worker's process is started where its create says, with the create's script and the
/// session directory of its descriptor.
pub proof fn law_workers_start_where_created(launch: WorkerLaunch, descriptor: DescriptorView)
    requires
        is_launch(launch, descriptor),
    ensures
        descriptor.create_rest.get_str("cwd"@) matches Some(cwd) ==> launch.cwd@ == cwd,
        descriptor.create_rest.get_str("cwd"@) is None ==> launch.cwd@ == "/"@,
        opt_text(launch.script) == descriptor.create_rest.get_str("script"@),
        opt_text(launch.session_dir) == descriptor.session_dir,
{
}

/// A launch that asks for the recent session goes on exactly where there is one, and any
/// other launch goes on.
pub proof fn law_recent_sessions_must_be_found(
    result: Result<(), String>,
    plan: LaunchPlan,
    recent_found: bool,
)
    requires
        is_recent_verdict(result, plan, recent_found),
    ensures
        result is Err <==> plan.continue_recent && !recent_found,
        result matches Err(message) ==> message@ == "No recent session found for "@ + plan.cwd@,
{
}

/// A worker of an earlier supervisor is connected exactly where it lives, and one that
/// was taken up is watched by its own process with no failures; one that was not is
/// dropped.
pub proof fn law_adopted_workers_are_watched(alive: bool, pid: u64, taken: Result<(), String>)
    ensures
        adoption(alive) == AdoptAction::Connect <==> alive,
        adoption(alive) == AdoptAction::Relaunch <==> !alive,
        watch_of_adopted(pid, taken) is Some <==> taken is Ok,
        watch_of_adopted(pid, taken) matches Some(watch) ==> watch.failures == 0 && watch.mode == (
        WatchMode::Process { pid }),
{
}

/// A worker is trusted exactly where it accepted the supervisor.
pub proof fn law_refusing_workers_fail(result: Result<(), String>, response: DaemonResponse)
    requires
        is_auth_verdict(result, response),
    ensures
        result is Ok <==> response.success,
        result matches Err(message) ==> (response.error matches Some(error) ==> message@
            == "worker authentication failed: "@ + error@),
{
}

/// A spawned worker is up exactly where its socket is, and times out exactly past its
/// deadline.
pub proof fn law_spawned_workers_come_up(
    wait: SpawnWait,
    worker_id: Seq<char>,
    connected: bool,
    deadline_passed: bool,
)
    requires
        is_spawn_look(wait, worker_id, connected, deadline_passed),
    ensures
        wait is Up <==> connected,
        wait is TimedOut <==> !connected && deadline_passed,
        wait is LookAgain <==> !connected && !deadline_passed,
        wait matches SpawnWait::TimedOut(message) ==> message@ == "session worker "@ + worker_id
            + " did not come up in time"@,
{
}

/// A relaunch spawns a worker unless the supervisor stops, which ends it.
pub proof fn law_relaunches_begin(stopping: bool)
    ensures
        relaunch_begun(stopping).1 == LaunchActionView::Spawn <==> !stopping,
        stopping ==> relaunch_begun(stopping).0 == LaunchStage::Over && relaunch_begun(stopping).1
            is Fail,
        !stopping ==> relaunch_begun(stopping).0 == LaunchStage::Spawning,
{
}

/// A client that went away is detached under its own name.
pub proof fn law_gone_clients_are_detached(client_id: Seq<char>)
    ensures
        detach_json(client_id).carries("type"@, JsonView::Str("detach"@)),
        detach_json(client_id).carries("clientId"@, JsonView::Str(client_id)),
{
    broadcast use group_members;

}

} // verus!

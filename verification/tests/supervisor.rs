//! The supervisor: workers, their restarts, and the routes between clients and
//! workers.
use pa_daemon::json::{Json, Number};
use pa_daemon::protocol::{
    parse_daemon_command_line, response_failure, response_success, DaemonCommand,
};
use pa_daemon::supervisor::{
    adopt_worker, adopted_watch, assert_session_name_available, await_worker_socket, backoff_ms,
    begin_relaunch,
    check_recent_session, check_worker_auth, client_command_payload, client_hello,
    command_timeout, create_answer, decode_response, delivers, disconnect_payload,
    dispatch_client, fresh_command_header, handle_list, handle_saved_session_list, handler_of,
    labels, launch_descriptor, launch_worker, list_saved, live_row, mark_failed, mark_spawned,
    offline_summary, on_worker_exit, plan_launch, read_worker_frame, relaunch_worker,
    resolve_worker, saved_list_place, selector_matches, settle_launch, settle_relaunch,
    settle_route, stemmed_labels, supervisor_generation, unknown_session, watch_worker,
    worker_auth_payload, worker_launch, AdoptAction, AfterRoute, ClientRouting,
    DaemonWorkerLifecycle,
    Dispatch, ExitDecision, FrameRoute, Handler, HelloFacts, LaunchAction, LaunchEvent,
    LaunchFacts, LaunchStage, PendingRequests, RelaunchVerdict, RouteFailure, SessionInfo,
    SpawnWait, Watch, WatchAction, WatchEvent, WatchMode, WorkerDescriptor, WorkerLabels,
};
use serde_json::Value;

fn command(line: &str) -> DaemonCommand {
    parse_daemon_command_line(line).unwrap().command
}

fn descriptor(create: &str) -> WorkerDescriptor {
    let plan = plan_launch(&command(create), Some("/now")).unwrap();
    let facts = LaunchFacts::fresh(
        "w1".to_string(),
        "/w1.sock".to_string(),
        "/agent/workers".to_string(),
        "/daemon.sock".to_string(),
        Some("cli".to_string()),
        "2026-01-01T00:00:00Z".to_string(),
    );
    launch_descriptor(&plan, &facts)
}

#[test]
fn pauses_double_up_to_a_bound() {
    assert_eq!(backoff_ms(1), 250);
    assert_eq!(backoff_ms(2), 500);
    assert_eq!(backoff_ms(5), 4_000);
    assert_eq!(backoff_ms(8), 30_000);
    assert_eq!(backoff_ms(100), 30_000);
}

#[test]
fn workers_are_restarted_five_times() {
    assert_eq!(
        on_worker_exit(0, false),
        ExitDecision::Restart {
            failures: 1,
            backoff_ms: 250
        }
    );
    assert_eq!(on_worker_exit(5, false), ExitDecision::GiveUp { failures: 6 });
    assert_eq!(on_worker_exit(0, true), ExitDecision::Stop);
    let mut watch = Watch {
        mode: WatchMode::Child,
        failures: 0,
    };
    for _ in 0..5 {
        assert!(matches!(
            watch_worker(&mut watch, WatchEvent::Gone, false),
            WatchAction::RelaunchAfter { .. }
        ));
        watch_worker(&mut watch, WatchEvent::RelaunchFailed, false);
    }
    assert_eq!(
        watch_worker(&mut watch, WatchEvent::Gone, false),
        WatchAction::GiveUp
    );
    let mut adopted = Watch {
        mode: WatchMode::Process { pid: 7 },
        failures: 0,
    };
    assert_eq!(
        watch_worker(&mut adopted, WatchEvent::Alive, false),
        WatchAction::PollAfter { ms: 1_000 }
    );
    assert_eq!(
        watch_worker(&mut adopted, WatchEvent::Alive, true),
        WatchAction::Stop
    );
}

#[test]
fn earlier_workers_are_taken_up() {
    assert_eq!(adopt_worker(true), AdoptAction::Connect);
    assert_eq!(adopt_worker(false), AdoptAction::Relaunch);
    assert_eq!(
        adopted_watch(7, &Ok(())),
        Some(Watch {
            mode: WatchMode::Process { pid: 7 },
            failures: 0
        })
    );
    assert_eq!(adopted_watch(7, &Err("gone".to_string())), None);
}

#[test]
fn workers_are_waited_for() {
    assert_eq!(await_worker_socket("w1", true, true), SpawnWait::Up);
    assert_eq!(await_worker_socket("w1", false, false), SpawnWait::LookAgain);
    assert!(matches!(
        await_worker_socket("w1", false, true),
        SpawnWait::TimedOut(message) if message.contains("w1")
    ));
}

#[test]
fn launches_follow_the_create() {
    let create = r#"{"type":"create","id":"c","sessionPath":"/s.jsonl","config":{"cwd":"/work","sessionDir":"/d"}}"#;
    let mut worker = descriptor(create);
    assert_eq!(worker.lifecycle, DaemonWorkerLifecycle::Starting);
    assert_eq!(worker.root_active_session_id, "w1");
    assert_eq!(worker.session_file.as_deref(), Some("/s.jsonl"));
    assert_eq!(worker.authentication_token.len(), 36);
    assert_eq!(
        worker.recovery_journal_path,
        "/agent/workers/w1.recovery.jsonl"
    );
    let launch = worker_launch(&worker);
    assert_eq!(launch.cwd, "/work");
    assert_eq!(launch.session_dir.as_deref(), Some("/d"));
    mark_spawned(&mut worker, 42);
    assert_eq!(worker.pid, 42);
    let summary = json(r#"{"sessionId":"s1","sessionFile":"/other.jsonl"}"#);
    settle_launch(&mut worker, &response_success(None, "create", Some(summary))).unwrap();
    assert_eq!(worker.lifecycle, DaemonWorkerLifecycle::Ready);
    assert_eq!(worker.root_session_id.as_deref(), Some("s1"));
    assert_eq!(
        worker.create_command.session_path.as_deref(),
        Some("/other.jsonl")
    );
    let mut failed = descriptor(create);
    assert_eq!(
        settle_launch(&mut failed, &response_failure(None, "create", "no", None)),
        Err("session worker create failed: no".to_string())
    );
    mark_failed(&mut failed, "now");
    assert_eq!(failed.lifecycle, DaemonWorkerLifecycle::Failed);
    assert!(plan_launch(&command(r#"{"type":"list","id":"l"}"#), None).is_err());
    let plan = plan_launch(
        &command(r#"{"type":"create","id":"c","continueRecent":true}"#),
        None,
    )
    .unwrap();
    assert_eq!(plan.cwd, "/");
    assert!(check_recent_session(&plan, true).is_ok());
    assert!(check_recent_session(&plan, false).is_err());
}

#[test]
fn relaunches_that_came_too_late_are_stopped() {
    let mut worker = descriptor(r#"{"type":"create","id":"c"}"#);
    let done = response_success(None, "create", None);
    assert_eq!(
        settle_relaunch(&mut worker, &done, false),
        RelaunchVerdict::Ready
    );
    assert!(matches!(
        settle_relaunch(&mut worker, &done, true),
        RelaunchVerdict::StopFresh(_)
    ));
    assert!(matches!(
        settle_relaunch(&mut worker, &response_failure(None, "create", "no", None), false),
        RelaunchVerdict::Failed(_)
    ));
}

#[test]
fn frames_reach_who_they_are_for() {
    let header = json(r#"{"outboundType":"response","requestId":"r1"}"#);
    let payload = br#"{"type":"response","id":"c1","command":"list","success":true}"#.to_vec();
    let FrameRoute::Reply {
        request_id,
        response,
    } = read_worker_frame(&header, &payload)
    else {
        panic!("a reply");
    };
    assert_eq!(request_id, "r1");
    assert!(response.success);
    let FrameRoute::Reply { response, .. } = read_worker_frame(&header, &b"{}".to_vec()) else {
        panic!("a reply");
    };
    assert_eq!(response.error.as_deref(), Some("invalid worker response"));
    assert_eq!(
        read_worker_frame(&header, &b"not json".to_vec()),
        FrameRoute::Ignore
    );
    let event = json(r#"{"outboundType":"session_event"}"#);
    let FrameRoute::Forward { routing, .. } =
        read_worker_frame(&event, &br#"{"activeSessionId":"s1"}"#.to_vec())
    else {
        panic!("an event");
    };
    assert!(delivers(&routing, &vec!["s1".to_string()]));
    assert!(!delivers(&routing, &vec!["s2".to_string()]));
    assert!(delivers(&ClientRouting::Broadcast, &Vec::new()));
    assert!(decode_response(&json(r#"{"command":"x"}"#)).is_none());
}

#[test]
fn client_lines_are_dispatched() {
    let mut client = "cli".to_string();
    let Dispatch::Answer(answer) = dispatch_client("not json", &mut client) else {
        panic!("an answer");
    };
    assert_eq!(to_value(&answer)["command"], "parse");
    let Dispatch::Answer(answer) = dispatch_client(r#"{"type":"list","id":"l"}"#, &mut client)
    else {
        panic!("an answer");
    };
    assert_eq!(to_value(&answer)["id"], "l");
    let line = r#"{"type":"command","id":"c1","clientId":"other","protocol":{"name":"prime-agent.daemon","version":7},"command":{"type":"list"}}"#;
    assert!(matches!(
        dispatch_client(line, &mut client),
        Dispatch::Handle { id, .. } if id == "c1"
    ));
    assert_eq!(client, "other");
    let line = line.replace(r#""type":"list""#, r#""type":"shutdown""#);
    assert!(matches!(
        dispatch_client(&line, &mut client),
        Dispatch::Shutdown { .. }
    ));
}

#[test]
fn routes_attach_and_detach() {
    let attach = command(r#"{"type":"attach","id":"a","activeSessionId":"s1"}"#);
    let (name, payload) = client_command_payload(&attach, "cli");
    assert_eq!(name, "attach");
    let payload = to_value(&payload);
    assert_eq!(payload["clientId"], "cli");
    assert_eq!(payload["capabilities"][0], "attach_snapshot");
    assert_eq!(command_timeout(&attach), 30_000);
    assert_eq!(
        command_timeout(&command(
            r#"{"type":"wait_for_idle","id":"w","activeSessionId":"s1"}"#
        )),
        600_000
    );
    let mut attached = Vec::new();
    let done = || response_success(None, "attach", Some(json(r#"{"activeSessionId":"s1"}"#)));
    let (answer, after) = settle_route(&attach, "a", "w1", &mut attached, Ok(done()));
    assert_eq!(to_value(&answer)["id"], "a");
    assert_eq!(after, AfterRoute::Nothing);
    assert_eq!(attached, vec!["s1".to_string()]);
    settle_route(&attach, "a", "w1", &mut attached, Ok(done()));
    assert_eq!(attached.len(), 1);
    let kill = command(r#"{"type":"kill","id":"k","activeSessionId":"s1"}"#);
    assert_eq!(
        settle_route(
            &kill,
            "k",
            "w1",
            &mut attached,
            Ok(response_success(None, "kill", None))
        )
        .1,
        AfterRoute::StopWorker
    );
    let (answer, after) =
        settle_route(&kill, "k", "w1", &mut attached, Err(RouteFailure::TimedOut));
    assert_eq!(to_value(&answer)["error"], "Session worker timed out");
    assert_eq!(after, AfterRoute::Nothing);
    assert_eq!(
        RouteFailure::Dropped.message(),
        "Session worker dropped the request"
    );
}

fn worker(id: &str, stem: &str, name: &str) -> WorkerLabels {
    WorkerLabels {
        worker_id: id.to_string(),
        root_id: id.to_string(),
        file_stem: stem.to_string(),
        name: name.to_string(),
    }
}

#[test]
fn selectors_find_one_worker() {
    let workers = vec![
        worker("aaaa-1111", "s-one", "first"),
        worker("BBBB-2222", "s-two", ""),
    ];
    assert_eq!(resolve_worker(&workers, "aaaa-1111"), Ok(0));
    assert_eq!(resolve_worker(&workers, "first"), Ok(0));
    assert_eq!(resolve_worker(&workers, "bbbb2222"), Ok(1));
    assert!(resolve_worker(&workers, "zzz").is_err());
    assert!(selector_matches("ABC-DEF", "cdef"));
    assert!(!selector_matches("abc", ""));
    let attach = command(r#"{"type":"attach","id":"a","activeSessionId":"s1"}"#);
    let answer = to_value(&unknown_session(&attach, "a"));
    assert_eq!(answer["success"], false);
    assert_eq!(answer["id"], "a");
}

#[test]
fn launches_go_step_by_step() {
    let mut worker = descriptor(r#"{"type":"create","id":"c"}"#);
    let mut stage = LaunchStage::Spawning;
    assert_eq!(
        launch_worker(&mut stage, &mut worker, LaunchEvent::Spawned(Ok(()))),
        LaunchAction::Connect
    );
    assert_eq!(
        launch_worker(&mut stage, &mut worker, LaunchEvent::Connected(Ok(()))),
        LaunchAction::Create
    );
    let refused = response_failure(None, "create", "no", None);
    assert_eq!(
        launch_worker(&mut stage, &mut worker, LaunchEvent::Created(Ok(refused))),
        LaunchAction::RemoveDescriptor("session worker create failed: no".to_string())
    );
    let done = response_success(None, "create", None);
    assert_eq!(
        launch_worker(&mut stage, &mut worker, LaunchEvent::Created(Ok(done))),
        LaunchAction::Ignore
    );
    assert_eq!(worker.lifecycle, DaemonWorkerLifecycle::Starting);
    let mut stage = LaunchStage::Connecting;
    assert_eq!(
        launch_worker(
            &mut stage,
            &mut worker,
            LaunchEvent::Connected(Err("gone".to_string()))
        ),
        LaunchAction::Fail("gone".to_string())
    );
    let mut stage = LaunchStage::Creating;
    let done = response_success(None, "create", None);
    assert_eq!(
        launch_worker(&mut stage, &mut worker, LaunchEvent::Created(Ok(done))),
        LaunchAction::Register
    );
    assert_eq!(worker.lifecycle, DaemonWorkerLifecycle::Ready);
}

#[test]
fn relaunches_leave_no_process_behind() {
    assert_eq!(
        begin_relaunch(true).1,
        LaunchAction::Fail("supervisor is shutting down".to_string())
    );
    let (mut stage, first) = begin_relaunch(false);
    assert_eq!(first, LaunchAction::Spawn);
    let mut worker = descriptor(r#"{"type":"create","id":"c"}"#);
    assert_eq!(
        relaunch_worker(&mut stage, &mut worker, LaunchEvent::Spawned(Ok(())), false),
        LaunchAction::Connect
    );
    let lost = LaunchEvent::Connected(Err("gone".to_string()));
    assert_eq!(
        relaunch_worker(&mut stage, &mut worker, lost, false),
        LaunchAction::Kill("gone".to_string())
    );
    let mut stage = LaunchStage::Creating;
    let done = LaunchEvent::Created(Ok(response_success(None, "create", None)));
    assert_eq!(
        relaunch_worker(&mut stage, &mut worker, done, true),
        LaunchAction::ShutDown("supervisor is shutting down".to_string())
    );
    let mut stage = LaunchStage::Creating;
    let done = LaunchEvent::Created(Ok(response_success(None, "create", None)));
    assert_eq!(
        relaunch_worker(&mut stage, &mut worker, done, false),
        LaunchAction::Register
    );
}

#[test]
fn commands_go_to_their_handler() {
    let handler = |line: &str| handler_of(&command(line));
    assert_eq!(handler(r#"{"type":"list"}"#), Handler::ListLive);
    assert_eq!(handler(r#"{"type":"list","all":true}"#), Handler::ListSaved);
    assert_eq!(handler(r#"{"type":"list","all":false}"#), Handler::ListLive);
    assert_eq!(
        handler(r#"{"type":"list_saved_sessions"}"#),
        Handler::SavedSessions
    );
    assert_eq!(handler(r#"{"type":"create"}"#), Handler::Create);
    assert_eq!(
        handler(r#"{"type":"send_message","targetActiveSessionId":"t","message":"m"}"#),
        Handler::SendMessage
    );
    assert_eq!(
        handler(r#"{"type":"kill","activeSessionId":"s"}"#),
        Handler::Route
    );
}

#[test]
fn requests_are_answered_once() {
    let mut pending = PendingRequests::new();
    pending.wait("r1");
    pending.wait("r2");
    assert!(pending.take("r1"));
    assert!(!pending.take("r1"));
    assert!(!pending.take("r9"));
    assert!(pending.take("r2"));
}

#[test]
fn workers_answer_by_their_descriptor() {
    let mut worker = descriptor(r#"{"type":"create","id":"c","name":"helper"}"#);
    worker.root_active_session_id = "root-1".to_string();
    worker.session_file = Some("/sessions/2026-session.jsonl".to_string());
    let found = labels(&worker);
    assert_eq!(found.worker_id, "w1");
    assert_eq!(found.root_id, "root-1");
    assert_eq!(found.file_stem, "2026-session");
    assert_eq!(found.name, "helper");
    worker.session_file = None;
    assert_eq!(labels(&worker).file_stem, "");
    assert_eq!(stemmed_labels(&worker, Some("x")).file_stem, "x");
}

#[test]
fn session_names_are_kept_apart() {
    let states = vec![json(r#"{"sessionName":"taken"}"#)];
    assert!(assert_session_name_available("taken", &states).is_err());
    assert!(assert_session_name_available("free", &states).is_ok());
    assert!(to_value(&create_answer(&response_success(None, "create", None), "w1")).is_object());
    assert_eq!(to_value(&offline_summary("w1"))["id"], "w1");
    assert!(live_row("w1", Some(&response_success(None, "get_state", Some(Json::object())))).is_some());
    assert!(live_row("w1", None).is_some());
    let list = command(r#"{"type":"list","id":"l"}"#);
    let state = json(r#"{"id":"w1","sessionName":"one"}"#);
    let answers = vec![
        ("w1".to_string(), Some(response_success(None, "get_state", Some(state)))),
        ("w2".to_string(), None),
        ("w3".to_string(), Some(response_success(None, "get_state", None))),
    ];
    let listed = to_value(&handle_list(&list, "l", &answers).data.unwrap());
    assert_eq!(listed["sessions"].as_array().unwrap().len(), 2);
    assert_eq!(listed["sessions"][0]["sessionName"], "one");
    assert_eq!(listed["sessions"][1]["id"], "w2");
}

#[test]
fn saved_sessions_are_listed() {
    let info = SessionInfo {
        path: "/s.jsonl".to_string(),
        id: "s1".to_string(),
        cwd: "/work".to_string(),
        name: Some("kept".to_string()),
        rlm_depth: 0,
        created: "2026-01-01T00:00:00Z".to_string(),
        modified: "2026-01-02T00:00:00Z".to_string(),
        message_count: 3,
        first_message: "hello".to_string(),
        parent_session_path: None,
        model: None,
        state: None,
    };
    let list = command(r#"{"type":"list_saved_sessions","id":"l","cwd":"/work"}"#);
    let place = saved_list_place(&list, None).unwrap();
    assert_eq!(place.cwd, "/work");
    let infos = vec![info];
    let lines = handle_saved_session_list(&list, "l", "/work", &infos);
    assert!(!lines.is_empty());
    let other = command(r#"{"type":"list","id":"l"}"#);
    assert!(handle_saved_session_list(&other, "l", "/work", &infos).is_empty());
    assert!(list_saved(&command(r#"{"type":"list","id":"l"}"#), "l", &infos).success);
}

#[test]
fn supervisors_introduce_themselves() {
    assert_eq!(supervisor_generation(42), "sup:42");
    let auth = to_value(&worker_auth_payload("t", 42, Some("proc:1"), "/d.sock"));
    assert!(auth.to_string().contains("sup:42"));
    assert!(check_worker_auth(&response_success(None, "x", None)).is_ok());
    assert!(check_worker_auth(&response_failure(None, "x", "no", None)).is_err());
    assert_eq!(to_value(&disconnect_payload("cli"))["clientId"], "cli");
    let hello = to_value(&client_hello(&HelloFacts {
        socket_path: "/d.sock".to_string(),
        schema_id: "schema".to_string(),
        schema_revision: 3,
        app_version: "1.0.0".to_string(),
        executable_path: "/bin/agent".to_string(),
        pid: 42,
        process_start_id: None,
        client_id: "cli".to_string(),
    }));
    assert_eq!(hello["type"], "daemon_hello");
    assert_eq!(hello["protocol"]["name"], "prime-agent.daemon");
    let (id, header) = fresh_command_header("list");
    assert_eq!(to_value(&header)["requestId"], id.as_str());
    assert_ne!(fresh_command_header("list").0, id);
}

/// A library value as a `serde_json` one, whose objects have no order.
fn to_value(json: &Json) -> Value {
    match json {
        Json::Null => Value::Null,
        Json::Bool(b) => Value::Bool(*b),
        Json::Number(Number::Unsigned(n)) => Value::from(*n),
        Json::Number(Number::Negative(n)) => Value::from(*n),
        Json::Number(Number::Other(text)) => serde_json::from_str(text).unwrap(),
        Json::Str(text) => Value::from(text.as_str()),
        Json::Array(items) => Value::Array(items.iter().map(to_value).collect()),
        Json::Object(members) => Value::Object(
            members
                .iter()
                .map(|(name, value)| (name.clone(), to_value(value)))
                .collect(),
        ),
    }
}

/// A `serde_json` value as a library one.
fn from_value(value: &Value) -> Json {
    match value {
        Value::Null => Json::Null,
        Value::Bool(b) => Json::Bool(*b),
        Value::Number(n) => match (n.as_u64(), n.as_i64()) {
            (Some(n), _) => Json::Number(Number::Unsigned(n)),
            (None, Some(n)) => Json::Number(Number::Negative(n)),
            _ => Json::Number(Number::Other(n.to_string())),
        },
        Value::String(text) => Json::string(text),
        Value::Array(items) => Json::array(items.iter().map(from_value).collect()),
        Value::Object(members) => Json::Object(
            members
                .iter()
                .map(|(name, value)| (name.clone(), from_value(value)))
                .collect(),
        ),
    }
}

/// A JSON text as a library value.
fn json(text: &str) -> Json {
    from_value(&serde_json::from_str(text).unwrap())
}

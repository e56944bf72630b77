//! Creates that a live worker answers.
use pa_daemon::create_reuse::{
    await_stop_settled, client_owned_conflict, resident_process_alive,
    reuse_live_worker_for_create, reuse_path, reuse_ready_summary, DaemonSessionLifecycle,
    ResidentWorker, ReusePlan, ReuseRoute, StopSettle,
};
use pa_daemon::json::Json;
use pa_daemon::protocol::{parse_daemon_command_line, response_failure, response_success};
use pa_daemon::supervisor::{DaemonWorkerLifecycle, DurableCreate, WorkerDescriptor};

fn resident_with(owner_client_id: Option<&str>, root_active_session_id: &str) -> ResidentWorker {
    ResidentWorker {
        descriptor: WorkerDescriptor {
            version: 2,
            worker_id: "w-1".to_string(),
            pid: 0,
            socket_path: "/tmp/none.sock".to_string(),
            recovery_journal_path: "/tmp/none.jsonl".to_string(),
            supervisor_socket_path: "/tmp/none.sock".to_string(),
            authentication_token: "test".to_string(),
            worker_instance_id: None,
            root_active_session_id: root_active_session_id.to_string(),
            owner_client_id: owner_client_id.map(str::to_string),
            root_session_id: None,
            session_file: None,
            session_dir: None,
            created_at: "2026-09-23T00:00:00Z".to_string(),
            updated_at: "2026-09-23T00:00:00Z".to_string(),
            lifecycle: DaemonWorkerLifecycle::Ready,
            create_command: DurableCreate {
                session_path: None,
                no_session: None,
                rest: Json::object(),
            },
            consecutive_failures: 0,
            last_failure_at: None,
            last_error: None,
        },
        stopping: false,
        retired: false,
        connected: true,
        session_ready: true,
    }
}

#[test]
fn a_client_owned_create_names_the_live_binding_on_owner_conflicts() {
    let resident = resident_with(Some("daemon-tui:1"), "live-id");
    let conflict = client_owned_conflict(
        &resident,
        Some(DaemonSessionLifecycle::ClientOwned),
        "daemon-tui:2",
        "/sessions/s.jsonl",
    )
    .expect("the owner conflict rejects");
    assert_eq!(
        conflict,
        "Session is already active in live-id: /sessions/s.jsonl"
    );
}

#[test]
fn a_plain_create_never_conflicts_on_ownership() {
    let resident = resident_with(Some("daemon-tui:1"), "live-id");
    assert!(client_owned_conflict(&resident, None, "daemon-tui:2", "/s.jsonl").is_none());
}

#[test]
fn the_owning_clients_reopen_reuses() {
    let resident = resident_with(Some("daemon-tui:1"), "live-id");
    assert!(client_owned_conflict(
        &resident,
        Some(DaemonSessionLifecycle::ClientOwned),
        "daemon-tui:1",
        "/s.jsonl"
    )
    .is_none());
}

#[test]
fn an_unowned_worker_is_reusable() {
    let resident = resident_with(None, "live-id");
    assert!(client_owned_conflict(
        &resident,
        Some(DaemonSessionLifecycle::ClientOwned),
        "daemon-tui:2",
        "/s.jsonl"
    )
    .is_none());
}

#[test]
fn an_unlaunched_registration_counts_as_dead() {
    let mut resident = resident_with(None, "live-id");
    assert!(!resident_process_alive(&resident, Some(true)));
    resident.descriptor.pid = 12;
    assert!(resident_process_alive(&resident, None));
    assert!(!resident_process_alive(&resident, Some(false)));
}

#[test]
fn a_ready_worker_answers_before_a_waiting_one() {
    let mut waiting = resident_with(None, "a");
    waiting.session_ready = false;
    let mut stopping = resident_with(None, "b");
    stopping.stopping = true;
    let ready = resident_with(None, "c");
    let residents = vec![waiting, stopping, ready];
    assert_eq!(
        reuse_live_worker_for_create(&residents, None, "c1", "/s.jsonl"),
        ReusePlan::Reuse { at: 2 }
    );
}

#[test]
fn no_worker_is_launched_over_a_live_one() {
    let mut waiting = resident_with(Some("c1"), "live");
    waiting.connected = false;
    let residents = vec![waiting];
    assert_eq!(
        reuse_live_worker_for_create(&residents, None, "c2", "/s.jsonl"),
        ReusePlan::Reuse { at: 0 }
    );
    assert_eq!(
        reuse_live_worker_for_create(
            &residents,
            Some(DaemonSessionLifecycle::ClientOwned),
            "c2",
            "/s.jsonl"
        ),
        ReusePlan::Refuse {
            message: "Session is already active in live: /s.jsonl".to_string()
        }
    );
    assert_eq!(
        reuse_live_worker_for_create(&Vec::new(), None, "c2", "/s.jsonl"),
        ReusePlan::Launch
    );
    let mut retired = resident_with(None, "old");
    retired.retired = true;
    assert_eq!(
        reuse_live_worker_for_create(&vec![retired], None, "c2", "/s.jsonl"),
        ReusePlan::AwaitStop { at: 0 }
    );
}

#[test]
fn stops_are_waited_out() {
    assert_eq!(
        await_stop_settled(false, true, false, "/s.jsonl"),
        StopSettle::Launch
    );
    assert_eq!(
        await_stop_settled(true, false, true, "/s.jsonl"),
        StopSettle::Launch
    );
    assert_eq!(
        await_stop_settled(true, true, false, "/s.jsonl"),
        StopSettle::Sleep { ms: 50 }
    );
    assert_eq!(
        await_stop_settled(true, true, true, "/s.jsonl"),
        StopSettle::Refuse {
            message: "Session \"/s.jsonl\" worker is stopping".to_string()
        }
    );
}

#[test]
fn reused_workers_answer_with_their_state() {
    let mut resident = resident_with(None, "live");
    let state = Json::object().field("id", Json::string("live"));
    let answered = ReuseRoute::Answered(response_success(None, "get_state", Some(state)));
    let summary = reuse_ready_summary(answered, &resident, "/s.jsonl").unwrap();
    assert_eq!(summary.unwrap().get_str("id"), Some("live"));
    let refused = ReuseRoute::Answered(response_failure(None, "get_state", "no", None));
    assert_eq!(
        reuse_ready_summary(refused, &resident, "/s.jsonl").unwrap_err(),
        "Session \"/s.jsonl\" worker is unavailable for reuse: assigned root session is missing"
    );
    assert_eq!(
        reuse_ready_summary(ReuseRoute::NotConnected, &resident, "/s.jsonl"),
        Ok(None)
    );
    resident.connected = false;
    resident.descriptor.last_error = Some("boom".to_string());
    assert_eq!(
        reuse_ready_summary(ReuseRoute::Failed, &resident, "/s.jsonl").unwrap_err(),
        "Session \"/s.jsonl\" worker is recovering: boom"
    );
}

#[test]
fn only_creates_with_a_file_are_reused() {
    let path = |line: &str| reuse_path(&parse_daemon_command_line(line).unwrap().command);
    assert_eq!(
        path(r#"{"type":"create","id":"c","sessionPath":"/s.jsonl"}"#).as_deref(),
        Some("/s.jsonl")
    );
    assert_eq!(
        path(r#"{"type":"create","id":"c","sessionPath":"/s.jsonl","noSession":true}"#),
        None
    );
    assert_eq!(path(r#"{"type":"create","id":"c"}"#), None);
    assert_eq!(path(r#"{"type":"list","id":"c"}"#), None);
}

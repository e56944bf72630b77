//! Scheduled jobs and heartbeats.
use pa_daemon::json::{Json, Number};
use pa_daemon::protocol::{response_failure, DaemonResponse};
use pa_daemon::scheduled_jobs::{
    activity, artifact_dir_below, bind_session, cancel_request, cron_add_input, get_request,
    session_artifact_dir, fire_outcome, handle_cron_add, handle_cron_cancel,
    handle_cron_list, handle_heartbeat_get, handle_heartbeat_manage, handle_heartbeat_set,
    handle_heartbeat_update, handle_heartbeats_list, heartbeat_set_input, live_binding,
    manage_request, run_job, update_request, AgentCronJob, DeliveryMode, HeartbeatAction,
    JobStatus,
};
use pa_daemon::session_window::{SessionFile, SessionHeader};
use pa_daemon::worker::SessionCore;
use serde_json::Value;

fn session_core() -> SessionCore {
    SessionCore {
        created: true,
        shutdown_requested: false,
        busy: false,
        compacting: false,
        abort_requested: false,
        retry_abort_requested: false,
        queued_input_suspended: true,
        pending_next_turn: false,
        steering: Vec::new(),
        follow_up: Vec::new(),
        active_session_id: "a1".to_string(),
        runtime_kind: "top-level".to_string(),
        cwd: "/work".to_string(),
        store: Some(SessionFile {
            path: "/sessions/s1.jsonl".to_string(),
            header: SessionHeader {
                id: "s1".to_string(),
                cwd: "/work".to_string(),
                rlm_depth: None,
            },
            entries: Vec::new(),
            leaf_id: None,
            window: None,
            persisted_entries: 0,
        }),
    }
}

fn job(id: &str, heartbeat: bool) -> AgentCronJob {
    AgentCronJob {
        id: id.to_string(),
        active_session_id: "a1".to_string(),
        prompt: format!("do {id}"),
        status: JobStatus::Active,
        heartbeat,
        delivery_mode: None,
        value: Json::object().field("id", Json::string(id)),
    }
}

#[test]
fn heartbeats_are_queued_once() {
    let mut live = session_core();
    assert!(run_job(&job("h1", true), &mut live, false));
    assert!(run_job(&job("h1", true), &mut live, false));
    assert_eq!(live.steering.len(), 1);
    assert_eq!(live.steering[0].message, "do h1");
    assert_eq!(live.steering[0].queue_key.as_deref(), Some("heartbeat:h1"));
    assert!(!live.queued_input_suspended);
    // A changed mode moves the fire to the other lane.
    let mut later = job("h1", true);
    later.delivery_mode = Some(DeliveryMode::FollowUp);
    assert!(run_job(&later, &mut live, false));
    assert_eq!((live.steering.len(), live.follow_up.len()), (0, 1));
    // Plain jobs pile up.
    assert!(run_job(&job("j1", false), &mut live, false));
    assert!(run_job(&job("j1", false), &mut live, false));
    assert_eq!(live.follow_up.len(), 3);
    assert_eq!(activity(&live, false).unfinished_action_count, 3);
}

#[test]
fn jobs_that_may_not_fire_change_nothing() {
    let mut live = session_core();
    assert!(!run_job(&job("h1", true), &mut live, true));
    let mut paused = job("h1", true);
    paused.status = JobStatus::Paused;
    assert!(!run_job(&paused, &mut live, false));
    live.shutdown_requested = true;
    assert!(!run_job(&job("h1", true), &mut live, false));
    assert!(live.steering.is_empty() && live.follow_up.is_empty());
    assert!(live.queued_input_suspended);
    assert_eq!(fire_outcome(false, false), Some("skipped"));
    assert_eq!(fire_outcome(false, true), Some("skipped"));
    assert_eq!(fire_outcome(true, false), Some("skipped"));
    assert_eq!(fire_outcome(true, true), None);
}

#[test]
fn stopped_heartbeats_lose_their_fire() {
    let mut live = session_core();
    run_job(&job("h1", true), &mut live, false);
    let payload = json(r#"{"activeSessionId":"a1","jobId":"h1","action":"stop"}"#);
    let request = manage_request(None, &payload).unwrap();
    assert_eq!(request.action, HeartbeatAction::Stop);
    let response = handle_heartbeat_manage(&request, Some(job("h1", true)), &mut live);
    assert!(response.success);
    assert!(live.steering.is_empty());
    assert!(!handle_heartbeat_manage(&request, None, &mut live).success);
    assert_eq!(
        manage_request(None, &json(r#"{"action":"else"}"#)).unwrap().action,
        HeartbeatAction::Resume
    );
    assert_eq!(
        update_request(None, &json(r#"{"action":"else"}"#)).unwrap().action,
        HeartbeatAction::Stop
    );
    run_job(&job("h1", true), &mut live, false);
    let payload = json(r#"{"activeSessionId":"a1","action":"pause"}"#);
    let request = update_request(None, &payload).unwrap();
    assert!(handle_heartbeat_update(&request, Ok(Some(job("h1", true))), &mut live).success);
    assert!(live.steering.is_empty());
    assert!(!handle_heartbeat_update(&request, Err("no".to_string()), &mut live).success);
    run_job(&job("h1", true), &mut live, false);
    assert!(handle_cron_cancel("h1", Some(job("h1", true)), &mut live).success);
    assert!(live.steering.is_empty());
    assert!(!handle_cron_cancel("h1", None, &mut live).success);
}

#[test]
fn live_jobs_are_listed() {
    let mut ended = job("j2", false);
    ended.status = JobStatus::Ended;
    let mut other = job("j3", true);
    other.active_session_id = "a2".to_string();
    let jobs = vec![job("j1", false), ended, other];
    let ids = |payload: &str| {
        let data = to_value(&handle_cron_list(None, &json(payload), &jobs).data.unwrap());
        data["jobs"].as_array().unwrap().len()
    };
    assert_eq!(ids("{}"), 2);
    assert_eq!(ids(r#"{"includeInactive":true}"#), 3);
    assert_eq!(ids(r#"{"activeSessionId":"a2"}"#), 1);
    let beats = to_value(
        &handle_heartbeats_list(None, &jobs, Some("name"), None)
            .data
            .unwrap(),
    );
    assert_eq!(beats["heartbeats"][0]["job"]["id"], "j3");
    assert_eq!(beats["heartbeats"][0]["sessionName"], "name");
    assert_eq!(
        to_value(&handle_heartbeat_get(None).data.unwrap()),
        value(r#"{"heartbeat":null}"#)
    );
}

#[test]
fn jobs_are_bound_to_a_kept_session() {
    let mut live = session_core();
    let (binding, artifacts) = live_binding(&live).unwrap();
    assert_eq!(binding.session_id, "s1");
    assert_eq!(artifacts.as_deref(), Some("/session-artifacts/s1"));
    let plan = bind_session(&binding, artifacts.as_deref(), false);
    assert!(plan.start_scheduler);
    assert!(!bind_session(&binding, None, true).start_scheduler);
    let input = cron_add_input(
        None,
        &json(r#"{"schedule":"every 5m","prompt":"look"}"#),
        &live,
    )
    .unwrap();
    assert_eq!(input.prompt, "look");
    assert_eq!(input.session_file, "/sessions/s1.jsonl");
    let input = heartbeat_set_input(
        None,
        &json(r#"{"prompt":"look"}"#),
        &live,
        Ok(Some(DeliveryMode::Steer)),
        &None,
        "every 5m".to_string(),
    )
    .unwrap();
    assert_eq!(input.delivery_mode, Some(DeliveryMode::Steer));
    assert!(heartbeat_set_input(
        None,
        &Json::object(),
        &live,
        Err("bad mode".to_string()),
        &None,
        "every 5m".to_string(),
    )
    .is_err());
    live.store = None;
    assert!(live_binding(&live).is_none());
    assert!(cron_add_input(None, &Json::object(), &live).is_err());
}

#[test]
fn sessions_that_are_not_created_are_refused_first() {
    let refusal = || Some(response_failure(None, "cron_list", "not created", None));
    let refused = |response: &DaemonResponse| response.error.as_deref() == Some("not created");
    let live = session_core();
    assert!(refused(&handle_cron_list(refusal(), &Json::object(), &Vec::new())));
    assert!(refused(&handle_heartbeats_list(refusal(), &Vec::new(), None, None)));
    assert!(refused(&manage_request(refusal(), &Json::object()).unwrap_err()));
    assert!(refused(&update_request(refusal(), &Json::object()).unwrap_err()));
    assert!(refused(&cancel_request(refusal(), &Json::object()).unwrap_err()));
    assert!(refused(&get_request(refusal(), &Json::object()).unwrap_err()));
    assert!(refused(&cron_add_input(refusal(), &Json::object(), &live).unwrap_err()));
    assert!(refused(
        &heartbeat_set_input(
            refusal(),
            &Json::object(),
            &live,
            Err("bad mode".to_string()),
            &None,
            String::new()
        )
        .unwrap_err()
    ));
    assert_eq!(
        cancel_request(None, &json(r#"{"jobId":"j1"}"#)),
        Ok("j1".to_string())
    );
    assert_eq!(get_request(None, &Json::object()), Ok(String::new()));
}

#[test]
fn artifacts_lie_beside_the_sessions() {
    assert_eq!(
        session_artifact_dir("/agent/sessions/s.jsonl", "s1").as_deref(),
        Some("/agent/session-artifacts/s1")
    );
    assert_eq!(session_artifact_dir("s.jsonl", "s1"), None);
    assert_eq!(
        artifact_dir_below(Some("/r"), "s1").as_deref(),
        Some("/r/session-artifacts/s1")
    );
}

#[test]
fn added_jobs_are_answered() {
    assert!(handle_cron_add(Ok(job("j1", false))).success);
    assert_eq!(
        handle_cron_add(Err("bad schedule".to_string())).error.as_deref(),
        Some("bad schedule")
    );
    let mut live = session_core();
    run_job(&job("old", true), &mut live, false);
    let response =
        handle_heartbeat_set(Ok(job("new", true)), &Some(job("old", true)), &mut live);
    assert!(response.success);
    assert!(live.steering.is_empty());
}

/// A library value as a `serde_json` one, whose objects have no order.
fn to_value(json: &Json) -> Value {
    match json {
        Json::Null => Value::Null,
        Json::Bool(b) => Value::Bool(*b),
        Json::Number(Number::Unsigned(n)) => Value::from(*n),
        Json::Number(Number::Negative(n)) => Value::from(*n),
        Json::Number(Number::Other(text)) => serde_json::from_str(text).unwrap(),
        Json::Str(text) => Value::from(text.as_str()),
        Json::Array(items) => Value::Array(items.iter().map(to_value).collect()),
        Json::Object(members) => Value::Object(
            members
                .iter()
                .map(|(name, value)| (name.clone(), to_value(value)))
                .collect(),
        ),
    }
}

/// A JSON text as a `serde_json` value.
fn value(text: &str) -> Value {
    serde_json::from_str(text).unwrap()
}
/// A `serde_json` value as a library one.
fn from_value(value: &Value) -> Json {
    match value {
        Value::Null => Json::Null,
        Value::Bool(b) => Json::Bool(*b),
        Value::Number(n) => match (n.as_u64(), n.as_i64()) {
            (Some(n), _) => Json::Number(Number::Unsigned(n)),
            (None, Some(n)) => Json::Number(Number::Negative(n)),
            _ => Json::Number(Number::Other(n.to_string())),
        },
        Value::String(text) => Json::string(text),
        Value::Array(items) => Json::array(items.iter().map(from_value).collect()),
        Value::Object(members) => Json::Object(
            members
                .iter()
                .map(|(name, value)| (name.clone(), from_value(value)))
                .collect(),
        ),
    }
}

/// A JSON text as a library value.
fn json(text: &str) -> Json {
    from_value(&serde_json::from_str(text).unwrap())
}

//! Messages between sessions.
use pa_daemon::json::{Json, Number};
use pa_daemon::messaging::{
    client_sender, delivery_payload, handle_send_message, sender_endpoint, settle_delivery,
    MessagePlan,
};
use pa_daemon::protocol::{
    parse_daemon_command_line, response_failure, response_success, DaemonCommand,
    DaemonResponse,
};
use pa_daemon::supervisor::{RouteFailure, WorkerLabels};
use serde_json::Value;

fn resident(worker_id: &str) -> WorkerLabels {
    WorkerLabels {
        worker_id: worker_id.to_string(),
        root_id: worker_id.to_string(),
        file_stem: "some-session".to_string(),
        name: String::new(),
    }
}

fn send_command(target: &str, from: Option<&str>) -> DaemonCommand {
    let from = match from {
        Some(from) => format!(r#","fromActiveSessionId":"{from}""#),
        None => String::new(),
    };
    let line = format!(
        r#"{{"type":"send_message","id":"m1","targetActiveSessionId":"{target}","message":"hello"{from}}}"#
    );
    parse_daemon_command_line(&line).unwrap().command
}

fn answer(plan: MessagePlan) -> DaemonResponse {
    match plan {
        MessagePlan::Answer(response) => response,
        other => panic!("expected an answer, got {other:?}"),
    }
}

#[test]
fn unknown_target_answers_with_the_ts_error() {
    let response = answer(handle_send_message(
        "m1",
        &send_command("no-such-session", None),
        &Vec::new(),
    ));
    assert!(!response.success, "{response:?}");
    assert_eq!(response.id.as_deref(), Some("m1"));
    assert_eq!(response.command, "send_message");
    assert_eq!(
        response.error.as_deref(),
        Some("Unknown active session: no-such-session")
    );
}

#[test]
fn unknown_source_fails_like_the_ts_source_lookup() {
    let response = answer(handle_send_message(
        "m1",
        &send_command("target-1", Some("ghost")),
        &vec![resident("target-1")],
    ));
    assert!(!response.success, "{response:?}");
    assert_eq!(
        response.error.as_deref(),
        Some("Unknown active session: ghost")
    );
}

#[test]
fn self_target_is_refused() {
    let response = answer(handle_send_message(
        "m1",
        &send_command("solo-1", Some("solo-1")),
        &vec![resident("solo-1")],
    ));
    assert!(!response.success, "{response:?}");
    assert_eq!(
        response.error.as_deref(),
        Some("Agent messaging cannot target the sending session")
    );
}

#[test]
fn delivery_routes_worker_deliver_message_to_the_target() {
    let command = send_command("target-1", None);
    assert_eq!(
        handle_send_message("m1", &command, &vec![resident("target-1")]),
        MessagePlan::FromClient { target: 0 }
    );
    assert_eq!(
        to_value(&delivery_payload(&command, client_sender("cli-1"))),
        value(
            r#"{"type":"worker_deliver_message","targetActiveSessionId":"target-1",
                "message":"hello","sender":{"clientId":"cli-1"}}"#
        )
    );
    // The resident has no live connection, so the route fails.
    let response = settle_delivery("m1", Err(RouteFailure::NotConnected.message().to_string()));
    assert!(!response.success, "{response:?}");
    assert_eq!(
        response.error.as_deref(),
        Some("Session worker is not connected")
    );
}

#[test]
fn session_messages_carry_the_session() {
    let workers = vec![resident("source-1"), resident("target-1")];
    assert_eq!(
        handle_send_message("m1", &send_command("target-1", Some("source-1")), &workers),
        MessagePlan::FromSession {
            source: 0,
            target: 1
        }
    );
    let state = Json::object()
        .field("id", Json::string("source-1"))
        .field("sessionId", Json::string("s1"))
        .field("sessionName", Json::string("helper"));
    let sender = sender_endpoint(
        Ok(response_success(None, "get_state", Some(state))),
        "cli-1",
    )
    .unwrap();
    assert_eq!(
        to_value(&sender),
        value(
            r#"{"activeSessionId":"source-1","sessionId":"s1","runtimeKind":"top-level",
                "clientId":"cli-1","sessionName":"helper"}"#
        )
    );
    assert_eq!(
        sender_endpoint(Ok(response_success(None, "get_state", None)), "c").unwrap_err(),
        "source session state unavailable"
    );
    let mut bare = response_failure(None, "get_state", "gone", None);
    assert_eq!(
        sender_endpoint(Ok(response_failure(None, "get_state", "gone", None)), "c").unwrap_err(),
        "gone"
    );
    bare.error = None;
    assert_eq!(
        sender_endpoint(Ok(bare), "c").unwrap_err(),
        "source state unavailable"
    );
    assert_eq!(
        sender_endpoint(Err("timed out".to_string()), "c").unwrap_err(),
        "timed out"
    );
}

#[test]
fn deliveries_are_answered_with_the_targets_word() {
    let done = settle_delivery(
        "m1",
        Ok(response_success(None, "x", Some(Json::Bool(true)))),
    );
    assert!(done.success);
    assert_eq!(done.command, "send_message");
    assert_eq!(done.data, Some(Json::Bool(true)));
    let mut refused = response_failure(None, "x", "busy", None);
    refused.error = None;
    assert_eq!(
        settle_delivery("m1", Ok(refused)).error.as_deref(),
        Some("delivery failed")
    );
    let list = parse_daemon_command_line(r#"{"type":"list","id":"l"}"#)
        .unwrap()
        .command;
    assert_eq!(
        answer(handle_send_message("m1", &list, &Vec::new()))
            .error
            .as_deref(),
        Some("invalid command")
    );
}

/// A library value as a `serde_json` one, whose objects have no order.
fn to_value(json: &Json) -> Value {
    match json {
        Json::Null => Value::Null,
        Json::Bool(b) => Value::Bool(*b),
        Json::Number(Number::Unsigned(n)) => Value::from(*n),
        Json::Number(Number::Negative(n)) => Value::from(*n),
        Json::Number(Number::Other(text)) => serde_json::from_str(text).unwrap(),
        Json::Str(text) => Value::from(text.as_str()),
        Json::Array(items) => Value::Array(items.iter().map(to_value).collect()),
        Json::Object(members) => Value::Object(
            members
                .iter()
                .map(|(name, value)| (name.clone(), to_value(value)))
                .collect(),
        ),
    }
}

/// A JSON text as a `serde_json` value.
fn value(text: &str) -> Value {
    serde_json::from_str(text).unwrap()
}

//! Command lines, envelopes, responses and replay.
use pa_daemon::json::{Json, Number};
use pa_daemon::protocol::{
    command_active_session_id, command_kind, command_type_name, create_daemon_event_meta,
    create_daemon_replay_info, current_protocol_info, default_client_capabilities,
    default_server_capabilities, event_meta_value, known_command_type,
    normalize_client_capabilities, parse_daemon_command_line, parse_supervisor_command_line,
    process_start_id, response_failure, response_line, response_success, session_event_value,
    session_status_value, stat_has_fields, supported_client_capabilities, CommandKind,
    DaemonReplayStatus, DaemonResumeCursor, DAEMON_PROTOCOL_NAME,
};
use serde_json::Value;

#[test]
fn envelope_round_trips() {
    let line = r#"{"type":"command","id":"c1","protocol":{"name":"prime-agent.daemon","version":7},"command":{"type":"list","all":true}}"#;
    let envelope = parse_daemon_command_line(line).expect("envelope parses");
    assert_eq!(envelope.id, "c1");
    assert_eq!(envelope.command.kind, CommandKind::List);
}

#[test]
fn unknown_command_is_preserved() {
    let line = r#"{"type":"command","id":"c2","protocol":{"name":"prime-agent.daemon","version":7},"command":{"type":"cron_add","activeSessionId":"x"}}"#;
    let err = parse_daemon_command_line(line).unwrap_err();
    assert_eq!(err.message(), "Unknown daemon command: cron_add");
    assert!(err.is_unknown_command());
}

#[test]
fn old_protocol_is_rejected() {
    let line = r#"{"type":"command","id":"c3","protocol":{"name":"prime-agent.daemon","version":6},"command":{"type":"list"}}"#;
    let err = parse_daemon_command_line(line).unwrap_err();
    assert!(err.message().contains("protocol 7 or newer"));
}

#[test]
fn replay_info_matches_ts() {
    let info = create_daemon_replay_info(None, 5, "legacy");
    assert_eq!(info.status, DaemonReplayStatus::Complete);
    let info = create_daemon_replay_info(
        Some(&DaemonResumeCursor {
            active_session_id: None,
            generation: Some("other".to_string()),
            sequence: Some(2),
            event_sequence: None,
        }),
        5,
        "legacy",
    );
    assert_eq!(info.reason.as_deref(), Some("event_generation_changed"));
    let info = create_daemon_replay_info(
        Some(&DaemonResumeCursor {
            active_session_id: None,
            generation: None,
            sequence: None,
            event_sequence: Some(9),
        }),
        5,
        "legacy",
    );
    assert_eq!(
        info.reason.as_deref(),
        Some("resume_cursor_ahead_of_session")
    );
}

#[test]
fn lines_that_are_no_json_are_refused() {
    let err = parse_daemon_command_line("not json").unwrap_err();
    assert!(!err.is_unknown_command());
    assert!(parse_daemon_command_line("[]").is_err());
    assert!(parse_daemon_command_line(r#"{"type":"no_such_type"}"#)
        .unwrap_err()
        .is_unknown_command());
    assert!(parse_supervisor_command_line("not json").is_err());
}

#[test]
fn bare_commands_are_for_workers() {
    let line = r#"{"type":"get_state","id":"g1","activeSessionId":"s1"}"#;
    let error = parse_supervisor_command_line(line).unwrap_err();
    assert_eq!(
        error.message(),
        "Daemon commands require protocol 7 or newer"
    );
    let envelope = parse_daemon_command_line(line).unwrap();
    assert_eq!(envelope.command.kind, CommandKind::GetState);
    assert_eq!(command_active_session_id(&envelope.command), Some("s1"));
    assert_eq!(command_type_name(&envelope.command), "get_state");
}

#[test]
fn type_names_round_trip() {
    for name in ["list", "create", "prompt", "shutdown", "ack_result"] {
        assert!(known_command_type(name));
        assert!(command_kind(name).is_some());
    }
    assert!(command_kind("send_message").is_some());
    assert!(!known_command_type("send_message"));
    assert!(!known_command_type("cron_add"));
    assert!(command_kind("cron_add").is_none());
}

#[test]
fn capabilities_are_normalized_in_order() {
    let supported = supported_client_capabilities();
    assert!(!supported.is_empty());
    let mut asked: Vec<String> = supported.clone();
    asked.reverse();
    asked.push("no-such-capability".to_string());
    let normalized = normalize_client_capabilities(&asked);
    assert_eq!(normalized.len(), supported.len());
    assert!(!normalized.iter().any(|c| c == "no-such-capability"));
    for capability in default_client_capabilities() {
        assert!(supported.contains(&capability));
    }
    let server = default_server_capabilities();
    assert_eq!(&server[..supported.len()], &supported[..]);
    assert!(server.len() > supported.len());
}

#[test]
fn start_ids_come_from_the_stat_line() {
    let stat = "17 (a (odd) name) S 1 2 3 4 5 6 7 8 9 10 11 12 13 14 15 16 17 18 4711 20 21";
    assert!(stat_has_fields(stat));
    assert_eq!(process_start_id(stat).as_deref(), Some("proc:4711"));
    assert!(stat_has_fields("no parenthesis"));
    assert_eq!(process_start_id("no parenthesis"), None);
    assert_eq!(process_start_id("1 (a) S 1 2"), None);
}

#[test]
fn responses_are_written_as_lines() {
    let line = response_line(&response_success(
        Some("r1"),
        "list",
        Some(Json::object().field("sessions", Json::empty_array())),
    ));
    assert_eq!(
        to_value(&line),
        value(r#"{"id":"r1","type":"response","command":"list","success":true,"data":{"sessions":[]}}"#)
    );
    let line = response_line(&response_failure(None, "parse", "bad line", None));
    assert_eq!(
        to_value(&line),
        value(r#"{"type":"response","command":"parse","success":false,"error":"bad line"}"#)
    );
}

#[test]
fn events_carry_their_cursor() {
    assert_eq!(current_protocol_info().name, DAEMON_PROTOCOL_NAME);
    assert_eq!(current_protocol_info().version, 7);
    let meta = create_daemon_event_meta("s1", 4, None, Some("gen-1"), "2026-01-01T00:00:00Z");
    let written = to_value(&event_meta_value(&meta));
    assert_eq!(written["activeSessionId"], "s1");
    assert_eq!(written["sequence"], 4);
    assert_eq!(written["cursor"]["generation"], "gen-1");
    assert_eq!(written["emittedAt"], "2026-01-01T00:00:00Z");
    let event = to_value(&session_event_value(
        "s1",
        Json::object().field("type", Json::string("turn_start")),
        &meta,
    ));
    assert_eq!(event["type"], "session_event");
    assert_eq!(event["event"]["type"], "turn_start");
    let status = to_value(&session_status_value("s1", "running tests", &meta));
    assert_eq!(status["type"], "session_status");
}

/// A library value as a `serde_json` one, whose objects have no order.
fn to_value(json: &Json) -> Value {
    match json {
        Json::Null => Value::Null,
        Json::Bool(b) => Value::Bool(*b),
        Json::Number(Number::Unsigned(n)) => Value::from(*n),
        Json::Number(Number::Negative(n)) => Value::from(*n),
        Json::Number(Number::Other(text)) => serde_json::from_str(text).unwrap(),
        Json::Str(text) => Value::from(text.as_str()),
        Json::Array(items) => Value::Array(items.iter().map(to_value).collect()),
        Json::Object(members) => Value::Object(
            members
                .iter()
                .map(|(name, value)| (name.clone(), to_value(value)))
                .collect(),
        ),
    }
}

/// A JSON text as a `serde_json` value.
fn value(text: &str) -> Value {
    serde_json::from_str(text).unwrap()
}

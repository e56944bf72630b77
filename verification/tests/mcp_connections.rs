//! The connections of a session to tool servers.
use pa_daemon::json::{Json, Number};
use pa_daemon::mcp_connections::{
    handle_get_mcp_connections, listable_servers, overlay_connections, session_wait, Connection,
    RosterRead, SessionWait,
};
use pa_daemon::protocol::response_failure;
use serde_json::Value;

fn connection(server: &str, connected: bool, generic: bool) -> Connection {
    Connection {
        server: server.to_string(),
        connected,
        generic,
        entry: Json::object().field("server", Json::string(server)),
    }
}

fn roster() -> Vec<Connection> {
    vec![
        connection("a", true, true),
        connection("b", false, true),
        connection("c", true, false),
    ]
}

#[test]
fn unlisted_connections_are_shown() {
    let listing = vec![json(r#"{"server":"a","tools":["t"]}"#)];
    assert_eq!(
        to_value(&overlay_connections(&roster(), &listing)),
        value(
            r#"{"connections":[{"server":"a","tools":["t"],"error":null},
                               {"server":"b","tools":null,"error":null},
                               {"server":"c","tools":null,"error":null}]}"#
        )
    );
    assert_eq!(listable_servers(&roster()), vec!["a".to_string()]);
}

#[test]
fn reads_are_answered() {
    let response = handle_get_mcp_connections(RosterRead::Read(roster()), &Vec::new());
    assert!(response.success);
    assert_eq!(
        handle_get_mcp_connections(RosterRead::Failed("boom".to_string()), &Vec::new())
            .error
            .as_deref(),
        Some("MCP roster read failed: boom")
    );
    let refused = handle_get_mcp_connections(
        RosterRead::NotCreated(response_failure(None, "get_mcp_connections", "not yet", None)),
        &Vec::new(),
    );
    assert_eq!(refused.error.as_deref(), Some("not yet"));
    assert!(!handle_get_mcp_connections(RosterRead::NoManager, &Vec::new()).success);
}

#[test]
fn a_locked_session_is_polled() {
    assert_eq!(session_wait(false, true, true), SessionWait::Use);
    assert!(matches!(
        session_wait(false, true, false),
        SessionWait::Poll { .. }
    ));
    assert_eq!(session_wait(false, false, false), SessionWait::GiveUp);
    assert_eq!(session_wait(true, true, true), SessionWait::GiveUp);
}

/// A library value as a `serde_json` one, whose objects have no order.
fn to_value(json: &Json) -> Value {
    match json {
        Json::Null => Value::Null,
        Json::Bool(b) => Value::Bool(*b),
        Json::Number(Number::Unsigned(n)) => Value::from(*n),
        Json::Number(Number::Negative(n)) => Value::from(*n),
        Json::Number(Number::Other(text)) => serde_json::from_str(text).unwrap(),
        Json::Str(text) => Value::from(text.as_str()),
        Json::Array(items) => Value::Array(items.iter().map(to_value).collect()),
        Json::Object(members) => Value::Object(
            members
                .iter()
                .map(|(name, value)| (name.clone(), to_value(value)))
                .collect(),
        ),
    }
}

/// A JSON text as a `serde_json` value.
fn value(text: &str) -> Value {
    serde_json::from_str(text).unwrap()
}
/// A `serde_json` value as a library one.
fn from_value(value: &Value) -> Json {
    match value {
        Value::Null => Json::Null,
        Value::Bool(b) => Json::Bool(*b),
        Value::Number(n) => match (n.as_u64(), n.as_i64()) {
            (Some(n), _) => Json::Number(Number::Unsigned(n)),
            (None, Some(n)) => Json::Number(Number::Negative(n)),
            _ => Json::Number(Number::Other(n.to_string())),
        },
        Value::String(text) => Json::string(text),
        Value::Array(items) => Json::array(items.iter().map(from_value).collect()),
        Value::Object(members) => Json::Object(
            members
                .iter()
                .map(|(name, value)| (name.clone(), from_value(value)))
                .collect(),
        ),
    }
}

/// A JSON text as a library value.
fn json(text: &str) -> Json {
    from_value(&serde_json::from_str(text).unwrap())
}

//! Commands given as prompts.
use pa_daemon::json::{Json, Number};
use pa_daemon::session_commands::{
    executed, parse_prompt_session_command, session_command_failure_row, settle_session_command,
    CommandEnd, SessionCommandExecution,
};
use serde_json::Value;

#[test]
fn session_command_prompt_parsing() {
    let command = parse_prompt_session_command("/goal status").unwrap();
    assert_eq!(command.name, "goal");
    assert_eq!(command.args, "status");
    assert!(parse_prompt_session_command("plain prompt").is_none());
    // Client commands are not session commands.
    assert!(parse_prompt_session_command("/model").is_none());
}

#[test]
fn custom_rows_serialize_with_custom_role() {
    assert!(parse_prompt_session_command("/compact focus").is_some());
    let value = to_value(&session_command_failure_row("boom"));
    assert_eq!(value["role"], "custom");
    assert_eq!(value["customType"], "session_slash_command_result");
    assert_eq!(value["content"], "Command failed: boom");
    assert_eq!(value["details"]["success"], false);
}

#[test]
fn failures_before_the_run_leave_their_row() {
    let execution = executed(Err("boom".to_string()));
    assert_eq!(execution.messages.len(), 1);
    assert_eq!(
        settle_session_command(execution, true),
        CommandEnd::Done(Err("boom".to_string()))
    );
    let going_on = || SessionCommandExecution {
        messages: Vec::new(),
        compaction: None,
        continuation_prompt: Some("go on".to_string()),
        error: None,
    };
    assert_eq!(
        settle_session_command(going_on(), true),
        CommandEnd::Turns {
            prompt: "go on".to_string()
        }
    );
    assert_eq!(settle_session_command(going_on(), false), CommandEnd::Silent);
}

#[test]
fn arguments_are_trimmed() {
    let command = parse_prompt_session_command("/autonomous   on --max-turns 5  ").unwrap();
    assert_eq!(command.name, "autonomous");
    assert_eq!(command.args, "on --max-turns 5");
    assert_eq!(parse_prompt_session_command("/refine").unwrap().args, "");
    assert!(parse_prompt_session_command("/compaction").is_none());
    assert!(parse_prompt_session_command(" /compact").is_none());
    assert!(parse_prompt_session_command("").is_none());
}

/// A library value as a `serde_json` one, whose objects have no order.
fn to_value(json: &Json) -> Value {
    match json {
        Json::Null => Value::Null,
        Json::Bool(b) => Value::Bool(*b),
        Json::Number(Number::Unsigned(n)) => Value::from(*n),
        Json::Number(Number::Negative(n)) => Value::from(*n),
        Json::Number(Number::Other(text)) => serde_json::from_str(text).unwrap(),
        Json::Str(text) => Value::from(text.as_str()),
        Json::Array(items) => Value::Array(items.iter().map(to_value).collect()),
        Json::Object(members) => Value::Object(
            members
                .iter()
                .map(|(name, value)| (name.clone(), to_value(value)))
                .collect(),
        ),
    }
}

/// A JSON text as a `serde_json` value.
fn value(text: &str) -> Value {
    serde_json::from_str(text).unwrap()
}

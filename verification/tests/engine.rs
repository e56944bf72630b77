//! The scripted engine.
use pa_daemon::engine::{
    abortable_sleep, run_side_question, settle_side_turn, side_question_event_value, EngineEvent, PromptRequest,
    ScriptedEngine, SideMessage, SideQuestionOutcome, SideQuestionRequest, SleepStep,
};
use pa_daemon::json::{Json, Number};
use serde_json::Value;

fn request_for(message: &str) -> PromptRequest {
    PromptRequest {
        message: message.to_string(),
        source: "test".to_string(),
        agent_message_id: None,
    }
}

#[test]
fn scripted_engine_replays_then_echoes() {
    let engine = ScriptedEngine::from_value(&json(
        r#"{"responses": ["first", {"text": "second", "delayMs": 0}]}"#,
    ));
    let collect = |index: usize, message: &str| {
        let mut run = engine.run_prompt(index, &request_for(message));
        let mut final_message = None;
        while let Some(event) = run.next(true, 7) {
            if let EngineEvent::AssistantMessage(value) = event {
                final_message = Some(value);
            }
        }
        final_message
    };
    assert_eq!(collect(0, "hi").unwrap().get_str("content"), Some("first"));
    assert_eq!(collect(1, "go").unwrap().get_str("content"), Some("second"));
    assert_eq!(
        collect(2, "more").unwrap().get_str("content"),
        Some("echo: more")
    );
}

#[test]
fn cancellation_stops_the_prompt() {
    let engine = ScriptedEngine::default();
    let mut run = engine.run_prompt(0, &request_for("x"));
    let mut seen = 0;
    let mut accepted = true;
    while let Some(event) = run.next(accepted, 7) {
        seen += 1;
        accepted = match event {
            EngineEvent::UserMessage(_) => false, // cancel right away
            _ => true,
        };
    }
    assert_eq!(seen, 2); // user message + done
}

#[test]
fn scripts_are_read_from_text() {
    let engine = ScriptedEngine::from_text(r#"{"responses": ["only"]}"#).unwrap();
    let mut run = engine.run_prompt(0, &request_for("hi"));
    let mut kinds = Vec::new();
    while let Some(event) = run.next(true, 7) {
        kinds.push(match event {
            EngineEvent::UserMessage(_) => "user",
            EngineEvent::AssistantUpdate { .. } => "update",
            EngineEvent::AssistantMessage(_) => "message",
            EngineEvent::Done(Ok(())) => "done",
            _ => "other",
        });
    }
    assert_eq!(kinds.first(), Some(&"user"));
    assert_eq!(kinds.last(), Some(&"done"));
    assert!(kinds.contains(&"message"));
    assert!(ScriptedEngine::from_text("not a script").is_err());
}

#[test]
fn scripted_side_questions_follow_their_script() {
    let plain = ScriptedEngine::from_value(&json(r#"{"responses": []}"#));
    assert_eq!(
        plain.unscripted_side_answer("why").as_deref(),
        Some("echo: why")
    );
    let answer = || "echo: why".to_string();
    assert_eq!(
        ScriptedEngine::unscripted_side_outcome(answer(), true),
        SideQuestionOutcome::Aborted { answer: answer() }
    );
    assert_eq!(
        ScriptedEngine::unscripted_side_outcome(answer(), false),
        SideQuestionOutcome::Complete { answer: answer() }
    );
    let scripted = ScriptedEngine::from_value(&json(
        r#"{"responses": [], "sideQuestion": {"responses": ["because", {"error": "boom"}]}}"#,
    ));
    assert_eq!(scripted.unscripted_side_answer("why"), None);
    let plan = scripted.side_attempt(0).unwrap();
    assert_eq!(
        settle_side_turn(plan, false),
        SideMessage::Answered {
            text: "because".to_string()
        }
    );
    let plan = scripted.side_attempt(0).unwrap();
    assert!(matches!(
        settle_side_turn(plan, true),
        SideMessage::Aborted { .. }
    ));
    let plan = scripted.side_attempt(1).unwrap();
    assert!(matches!(
        settle_side_turn(plan, false),
        SideMessage::Failed { error: Some(error), .. } if error == "boom"
    ));
    assert_eq!(
        scripted.side_attempt(2).unwrap_err(),
        "No more scripted side-question responses"
    );
}

#[test]
fn side_questions_end_in_one_of_three_ways() {
    let complete = run_side_question(Ok(SideMessage::Answered {
        text: "yes".to_string(),
    }));
    assert_eq!(complete.status_str(), "complete");
    assert_eq!(complete.answer(), "yes");
    assert_eq!(complete.error_message(), None);
    let failed = SideQuestionOutcome::Failed {
        answer: String::new(),
        error: "no key".to_string(),
    };
    assert_eq!(failed.status_str(), "error");
    assert_eq!(failed.error_message(), Some("no key"));
    let request = SideQuestionRequest {
        side_question_id: "q1".to_string(),
        question: "why?".to_string(),
        previous_turns: Vec::new(),
    };
    let event = to_value(&side_question_event_value(
        &request, "yes", "complete", None,
    ));
    assert_eq!(event["id"], "q1");
    assert_eq!(event["answer"], "yes");
    assert_eq!(event["status"], "complete");
}

#[test]
fn pauses_are_taken_in_slices() {
    assert_eq!(
        abortable_sleep(60, false),
        SleepStep::Slice {
            ms: 25,
            remaining_ms: 35
        }
    );
    assert_eq!(
        abortable_sleep(10, false),
        SleepStep::Slice {
            ms: 10,
            remaining_ms: 0
        }
    );
    assert_eq!(abortable_sleep(0, false), SleepStep::Over { completed: true });
    assert_eq!(abortable_sleep(60, true), SleepStep::Over { completed: false });
}

/// A library value as a `serde_json` one, whose objects have no order.
fn to_value(json: &Json) -> Value {
    match json {
        Json::Null => Value::Null,
        Json::Bool(b) => Value::Bool(*b),
        Json::Number(Number::Unsigned(n)) => Value::from(*n),
        Json::Number(Number::Negative(n)) => Value::from(*n),
        Json::Number(Number::Other(text)) => serde_json::from_str(text).unwrap(),
        Json::Str(text) => Value::from(text.as_str()),
        Json::Array(items) => Value::Array(items.iter().map(to_value).collect()),
        Json::Object(members) => Value::Object(
            members
                .iter()
                .map(|(name, value)| (name.clone(), to_value(value)))
                .collect(),
        ),
    }
}

/// A JSON text as a `serde_json` value.
fn value(text: &str) -> Value {
    serde_json::from_str(text).unwrap()
}
/// A `serde_json` value as a library one.
fn from_value(value: &Value) -> Json {
    match value {
        Value::Null => Json::Null,
        Value::Bool(b) => Json::Bool(*b),
        Value::Number(n) => match (n.as_u64(), n.as_i64()) {
            (Some(n), _) => Json::Number(Number::Unsigned(n)),
            (None, Some(n)) => Json::Number(Number::Negative(n)),
            _ => Json::Number(Number::Other(n.to_string())),
        },
        Value::String(text) => Json::string(text),
        Value::Array(items) => Json::array(items.iter().map(from_value).collect()),
        Value::Object(members) => Json::Object(
            members
                .iter()
                .map(|(name, value)| (name.clone(), from_value(value)))
                .collect(),
        ),
    }
}

/// A JSON text as a library value.
fn json(text: &str) -> Json {
    from_value(&serde_json::from_str(text).unwrap())
}

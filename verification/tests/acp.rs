//! The agent client protocol: one session per connection, one turn at a time.
use pa_daemon::acp::session::{
    publish_completion_envelope, publish_response_boundary, session_info, PrimeAgentEventPhase,
    PrimeAgentQuiescenceMeta, project_event, prompt_block_error, turn_failure, AcpEngineEvent, AdmittedPrompt, LoopSignal,
    MessageKey, TurnBoundary,
};
use pa_daemon::acp::{
    handle_request, internal_error, method_not_found, result_frame, same_cwd, session_new, session_new_answer,
    stop_reason_response, validate_initialize, AcpMethod, AcpStopReason, CloseAdmission,
    ConnectionState, PrimeAgentOutcome, PromptAdmission, PromptTurn, TurnAction, TurnEvent,
    TurnUpdate,
};
use pa_daemon::agent_engine::{StopReason, StreamEvent};
use pa_daemon::json::{Json, Number};
use serde_json::Value;

fn id() -> Json {
    Json::uint(1)
}

#[test]
fn requests_are_told_by_their_method() {
    assert_eq!(handle_request(&id(), "initialize"), Ok(AcpMethod::Initialize));
    assert_eq!(handle_request(&id(), "session/new"), Ok(AcpMethod::SessionNew));
    assert_eq!(
        handle_request(&id(), "session/prompt"),
        Ok(AcpMethod::SessionPrompt)
    );
    assert_eq!(
        handle_request(&id(), "session/close"),
        Ok(AcpMethod::SessionClose)
    );
    let frame = to_value(&handle_request(&id(), "session/load").unwrap_err());
    assert_eq!(frame["error"]["code"], -32601);
    assert_eq!(frame["error"]["message"], "\"Method not found\": session/load");
    assert_eq!(frame, to_value(&method_not_found(&id(), "session/load")));
    assert_eq!(
        to_value(&result_frame(&id(), stop_reason_response(AcpStopReason::EndTurn))),
        value(r#"{"jsonrpc":"2.0","id":1,"result":{"stopReason":"end_turn"}}"#)
    );
    assert_eq!(
        to_value(&internal_error(&id(), "boom"))["error"]["data"]["details"],
        "boom"
    );
}

#[test]
fn the_protocol_version_is_a_number() {
    assert!(validate_initialize(&id(), &json(r#"{"protocolVersion":1}"#)).is_ok());
    for (params, received) in [
        ("{}", "undefined"),
        (r#"{"protocolVersion":"1"}"#, "string"),
        (r#"{"protocolVersion":true}"#, "boolean"),
        (r#"{"protocolVersion":null}"#, "null"),
        (r#"{"protocolVersion":[]}"#, "object"),
    ] {
        let frame = to_value(&validate_initialize(&id(), &json(params)).unwrap_err());
        assert_eq!(frame["error"]["code"], -32602);
        assert_eq!(
            frame["error"]["data"]["protocolVersion"]["_errors"][0],
            format!("Invalid input: expected number, received {received}")
        );
    }
}

fn hosting(session: &str) -> ConnectionState {
    let mut state = ConnectionState::new();
    state.begin_session_new(&id()).unwrap();
    state.finish_session_new(Some(session.to_string()));
    state
}

#[test]
fn one_session_per_connection() {
    let mut state = ConnectionState::new();
    assert!(state.begin_session_new(&id()).is_ok());
    assert!(state.begin_session_new(&id()).is_err());
    state.finish_session_new(None);
    assert!(state.begin_session_new(&id()).is_ok());
    state.finish_session_new(Some("s1".to_string()));
    let frame = to_value(&state.begin_session_new(&id()).unwrap_err());
    assert!(frame.to_string().contains("one session per connection"));
}

#[test]
fn one_turn_at_a_time() {
    let mut state = hosting("s1");
    assert_eq!(state.handle_session_prompt("s1"), PromptAdmission::Run);
    state.start_prompt("s1");
    assert_eq!(
        state.handle_session_prompt("s1"),
        PromptAdmission::Refuse(
            "A prompt turn is already running for this ACP session".to_string()
        )
    );
    state.clear_prompt_slot("s1");
    assert_eq!(state.handle_session_prompt("s1"), PromptAdmission::Run);
    assert_eq!(
        ConnectionState::new().handle_session_prompt("s1"),
        PromptAdmission::Refuse("Unknown ACP session: s1".to_string())
    );
}

#[test]
fn cancellations_are_for_the_running_turn() {
    let mut state = hosting("s1");
    assert!(!state.handle_notification("session/cancel", "s1"));
    state.start_prompt("s1");
    assert!(!state.handle_notification("session/cancel", "s2"));
    assert!(!state.handle_notification("session/other", "s1"));
    assert!(state.handle_notification("session/cancel", "s1"));
    assert!(!state.handle_notification("session/cancel", "s1"));
    state.clear_prompt_slot("s1");
    assert_eq!(state.handle_session_prompt("s1"), PromptAdmission::Cancelled);
}

#[test]
fn closing_gives_the_place_up() {
    let mut state = hosting("s1");
    state.start_prompt("s1");
    assert_eq!(
        state.handle_session_close("s1"),
        CloseAdmission::Close {
            prompt_running: true
        }
    );
    assert!(matches!(
        state.handle_session_close("s1"),
        CloseAdmission::Refuse(_)
    ));
    assert!(state.begin_session_new(&id()).is_err());
    state.finish_close();
    assert!(state.begin_session_new(&id()).is_ok());
    assert!(matches!(
        ConnectionState::new().handle_session_close("s9"),
        CloseAdmission::Refuse(_)
    ));
    assert!(hosting("s1").teardown());
    assert!(!ConnectionState::new().teardown());
}

#[test]
fn directories_are_compared_by_path_or_inode() {
    assert!(same_cwd("/a", "/a", None, None));
    assert!(same_cwd("/a", "/b", Some((1, 2)), Some((1, 2))));
    assert!(!same_cwd("/a", "/b", Some((1, 2)), Some((1, 3))));
    assert!(!same_cwd("/a", "/b", Some((0, 0)), Some((0, 0))));
    assert!(!same_cwd("/a", "/b", None, None));
    let admitted = session_new(&id(), false, Some("/a"), false, "/b").unwrap();
    assert_eq!(
        admitted.cwd_mismatch,
        Some(("/a".to_string(), "/b".to_string()))
    );
    assert_eq!(admitted.session_id.len(), 36);
    let other = session_new(&id(), false, Some(""), false, "/b").unwrap();
    assert_eq!(other.cwd_mismatch, None);
    assert_ne!(other.session_id, admitted.session_id);
    assert_eq!(
        to_value(&session_new_answer(&id(), "s1", Some(Json::object()))),
        value(r#"{"jsonrpc":"2.0","id":1,"result":{"sessionId":"s1","_meta":{}}}"#)
    );
    assert_eq!(
        to_value(&session_new_answer(&id(), "s1", None)),
        value(r#"{"jsonrpc":"2.0","id":1,"result":{"sessionId":"s1"}}"#)
    );
    let frame = to_value(&session_new(&id(), true, None, true, "/b").unwrap_err());
    assert_eq!(
        frame["error"]["data"]["reason"],
        "MCP servers are unavailable in this ACP host"
    );
}

#[test]
fn a_refused_prompt_gets_one_boundary() {
    let mut turn = PromptTurn::Admitting;
    assert_eq!(
        turn.run_prompt_turn(&id(), TurnEvent::Admitted(Err("busy".to_string()))),
        TurnAction::Publish(TurnUpdate::ResponseBoundary {
            terminal_expected: false,
            outcome: PrimeAgentOutcome::Error
        })
    );
    let TurnAction::Finish {
        response,
        clear_slot,
    } = turn.run_prompt_turn(&id(), TurnEvent::Published(true))
    else {
        panic!("the end of the turn");
    };
    assert_eq!(to_value(&response)["error"]["data"]["details"], "busy");
    assert!(!clear_slot);
}

#[test]
fn a_settled_turn_publishes_in_order() {
    let mut turn = PromptTurn::Admitting;
    assert_eq!(
        turn.run_prompt_turn(&id(), TurnEvent::Admitted(Ok(()))),
        TurnAction::WaitForIdle
    );
    assert!(matches!(
        turn.run_prompt_turn(
            &id(),
            TurnEvent::Settled {
                cancelled: false,
                failure: None
            }
        ),
        TurnAction::Publish(TurnUpdate::ResponseBoundary {
            terminal_expected: true,
            ..
        })
    ));
    assert_eq!(
        turn.run_prompt_turn(&id(), TurnEvent::Published(true)),
        TurnAction::Publish(TurnUpdate::Completion)
    );
    assert!(matches!(
        turn.run_prompt_turn(&id(), TurnEvent::Published(true)),
        TurnAction::Publish(TurnUpdate::TerminalQuiescence { .. })
    ));
    let TurnAction::Finish {
        response,
        clear_slot,
    } = turn.run_prompt_turn(&id(), TurnEvent::Published(true))
    else {
        panic!("the end of the turn");
    };
    assert_eq!(to_value(&response)["result"]["stopReason"], "end_turn");
    assert!(clear_slot);
    assert_eq!(
        turn.run_prompt_turn(&id(), TurnEvent::Published(true)),
        TurnAction::Ignore
    );
}

#[test]
fn updates_say_what_is_outstanding() {
    let boundary = publish_response_boundary(false, PrimeAgentOutcome::Error);
    assert_eq!(boundary.phase, PrimeAgentEventPhase::ResponseBoundary);
    assert_eq!(boundary.terminal_quiescence_expected, Some(false));
    assert_eq!(boundary.quiescence, None);
    let (completion, terminal) = publish_completion_envelope(PrimeAgentOutcome::Result);
    let quiet = PrimeAgentQuiescenceMeta {
        outstanding_subagents: 0,
        remaining_autonomous_continuations: 0,
    };
    assert_eq!((completion.quiescence, completion.outcome), (Some(quiet), None));
    assert_eq!(terminal.phase, PrimeAgentEventPhase::TerminalQuiescence);
    assert_eq!(terminal.outcome, Some(PrimeAgentOutcome::Result));
    assert_eq!(session_info(TurnUpdate::Completion), completion);
    assert_eq!(
        session_info(TurnUpdate::TerminalQuiescence {
            outcome: PrimeAgentOutcome::Result
        }),
        terminal
    );
}

#[test]
fn a_cancelled_turn_says_so() {
    let mut turn = PromptTurn::Admitting;
    turn.run_prompt_turn(&id(), TurnEvent::Admitted(Ok(())));
    let TurnAction::Finish { response, .. } = turn.run_prompt_turn(
        &id(),
        TurnEvent::Settled {
            cancelled: true,
            failure: None,
        },
    ) else {
        panic!("the end of the turn");
    };
    assert_eq!(to_value(&response)["result"]["stopReason"], "cancelled");
}

fn key(timestamp: u64, stop_reason: StopReason, error: Option<&str>) -> MessageKey {
    MessageKey {
        timestamp,
        stop_reason,
        error_message: error.map(str::to_string),
    }
}

#[test]
fn old_failures_are_not_reported() {
    let old = vec![Some(key(1, StopReason::Error, Some("old")))];
    let boundary = TurnBoundary::capture(&old);
    assert_eq!(turn_failure(&old, &boundary), None);
    let fresh = vec![
        Some(key(1, StopReason::Error, Some("old"))),
        None,
        Some(key(2, StopReason::Error, None)),
        None,
    ];
    assert_eq!(
        turn_failure(&fresh, &boundary).as_deref(),
        Some("the model request failed")
    );
    let fine = vec![Some(key(2, StopReason::Stop, None))];
    assert_eq!(turn_failure(&fine, &boundary), None);
}

#[test]
fn loop_events_are_projected() {
    assert_eq!(
        project_event(LoopSignal::MessageUpdate {
            stream: StreamEvent::ThinkingDelta("hm".to_string())
        }),
        Some(AcpEngineEvent::AssistantDelta {
            thinking: true,
            delta: "hm".to_string()
        })
    );
    assert_eq!(
        project_event(LoopSignal::MessageUpdate {
            stream: StreamEvent::TextStart
        }),
        None
    );
    assert_eq!(project_event(LoopSignal::Other), None);
    let prompt = AdmittedPrompt::parse(&id(), Ok(("hi".to_string(), Vec::new()))).unwrap();
    assert_eq!(prompt.text, "hi");
    let frame = AdmittedPrompt::parse(&id(), Err("no text".to_string())).unwrap_err();
    assert_eq!(to_value(&frame), to_value(&prompt_block_error(&id(), "no text")));
}

/// A library value as a `serde_json` one, whose objects have no order.
fn to_value(json: &Json) -> Value {
    match json {
        Json::Null => Value::Null,
        Json::Bool(b) => Value::Bool(*b),
        Json::Number(Number::Unsigned(n)) => Value::from(*n),
        Json::Number(Number::Negative(n)) => Value::from(*n),
        Json::Number(Number::Other(text)) => serde_json::from_str(text).unwrap(),
        Json::Str(text) => Value::from(text.as_str()),
        Json::Array(items) => Value::Array(items.iter().map(to_value).collect()),
        Json::Object(members) => Value::Object(
            members
                .iter()
                .map(|(name, value)| (name.clone(), to_value(value)))
                .collect(),
        ),
    }
}

/// A JSON text as a `serde_json` value.
fn value(text: &str) -> Value {
    serde_json::from_str(text).unwrap()
}
/// A `serde_json` value as a library one.
fn from_value(value: &Value) -> Json {
    match value {
        Value::Null => Json::Null,
        Value::Bool(b) => Json::Bool(*b),
        Value::Number(n) => match (n.as_u64(), n.as_i64()) {
            (Some(n), _) => Json::Number(Number::Unsigned(n)),
            (None, Some(n)) => Json::Number(Number::Negative(n)),
            _ => Json::Number(Number::Other(n.to_string())),
        },
        Value::String(text) => Json::string(text),
        Value::Array(items) => Json::array(items.iter().map(from_value).collect()),
        Value::Object(members) => Json::Object(
            members
                .iter()
                .map(|(name, value)| (name.clone(), from_value(value)))
                .collect(),
        ),
    }
}

/// A JSON text as a library value.
fn json(text: &str) -> Json {
    from_value(&serde_json::from_str(text).unwrap())
}

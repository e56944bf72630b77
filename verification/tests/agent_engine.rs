//! The agent engine: model selection, prompts, turns and their settlement.
use pa_daemon::agent_engine::{
    accepted_row, accounts_message, artifact_reference, attempt_message, attempt_start,
    boundary_verdict, connection_commands, drop_trailing_assistant, forward_event, goal_update,
    goal_usage_id, is_failover, logical_artifact_path, max_depth_entry, model_metadata,
    model_selector, persisted_rlm_max_depth, placed_artifact, requested_thinking,
    resets_overflow_recovery, resolve_registry_model, resolve_request_api_key,
    resolve_rlm_max_depth, resource_snapshot, retry_event_to_engine_event, retry_wait,
    run_branch_summary, run_compaction, run_model_turn, run_prompt, run_turn_boundary,
    run_turn_once, shown_path, side_question_outcome, stream_event_value, telemetry_enabled,
    tool_definition, AgentEngineConfig, AgentEvent, AgentSessionEngine, AttemptStart,
    AutoRetryEvent, BoundaryRequests, BoundaryRun, BranchSummaryOutcome, BranchSummaryResult,
    CompactionCall, DepthSource, ExtensionCommand, Failover, FailoverTarget, FinalMessage,
    FollowUp, ForwardEvent, Forwarding, ImageContent, LoopAction, LoopEnd, LoopEvent,
    LoopMessage, MessageKind, ModelRef, OverflowArmRun, PromptStart, PromptTemplate,
    PublishedGoal, RefinementRun, RegistryLookup, RetryWait, RlmSessionIdentity,
    SideQuestionCall, Skill, StopReason, StreamEvent, SupervisorLinkConfig, ToolInfo,
    ToolResult, TurnAdmission, TurnLoop, TurnOnce, TurnResult,
};
use pa_daemon::auto_compaction::{AutoCompactionRun, CompactOutcome};
use pa_daemon::engine::{
    CompactionOutcome, CompactionRun, EngineEvent, EngineModelSelection, RetryStartReason,
    SideQuestionOutcome,
};
use pa_daemon::json::{Json, Number};
use pa_daemon::session_commands::{
    parse_prompt_session_command, run_session_command, settle_session_command, CommandEnd,
    SessionCommandExecution,
};
use serde_json::Value;

fn config(provider: Option<&str>, model: Option<&str>, api_key: Option<&str>) -> AgentEngineConfig {
    AgentEngineConfig {
        cwd: "/work".to_string(),
        agent_dir: "/work/agent".to_string(),
        provider: provider.map(str::to_string),
        model: model.map(str::to_string),
        api_key: api_key.map(str::to_string),
        thinking: None,
        session_dir: None,
        session_file: None,
        faux_script: None,
        supervisor_link: None,
        telemetry_disabled: None,
    }
}

fn selection(provider: Option<&str>, model: Option<&str>, thinking: Option<&str>) -> EngineModelSelection {
    EngineModelSelection {
        provider: provider.map(str::to_string),
        model: model.map(str::to_string),
        api_key: None,
        thinking: thinking.map(str::to_string),
    }
}

fn battery() -> ModelRef {
    ModelRef {
        provider: "battery".to_string(),
        id: "mock-1".to_string(),
    }
}

/// What the model registry says of a selection: one provider `battery` with one
/// model `mock-1`.
fn registry(selection: &EngineModelSelection, default: bool) -> RegistryLookup {
    match (selection.provider.as_deref(), selection.model.as_deref()) {
        (None, None) => RegistryLookup::Unnamed {
            startup: if default { Some(battery()) } else { None },
            first: Some(battery()),
        },
        (Some("battery") | None, Some("mock-1")) => RegistryLookup::Named {
            model: Some(battery()),
            error: None,
        },
        (provider, _) => RegistryLookup::Named {
            model: None,
            error: provider.map(|name| format!("Unknown provider: {name}")),
        },
    }
}

#[test]
fn create_config_flags_reach_the_engine_model_resolution() {
    let mut engine = AgentSessionEngine::new(config(None, None, None), None, None);
    engine.configure_model(selection(Some("battery"), Some("mock-1"), None), None);
    let model = resolve_registry_model(registry(&engine.selection, false)).expect("resolved model");
    assert_eq!(model.provider, "battery");
    assert_eq!(model.id, "mock-1");
    assert_eq!(
        resolve_request_api_key(&engine.selection, Some("sk-battery")).as_deref(),
        Some("sk-battery")
    );
}

#[test]
fn settings_default_drives_unflagged_resolution() {
    let engine = AgentSessionEngine::new(config(None, None, None), None, None);
    let model = resolve_registry_model(registry(&engine.selection, true)).expect("resolved model");
    assert_eq!(model.provider, "battery");
    assert_eq!(model.id, "mock-1");
}

#[test]
fn configure_model_merges_only_present_fields() {
    let mut engine = AgentSessionEngine::new(
        config(Some("battery"), Some("mock-1"), Some("flag-key")),
        None,
        None,
    );
    // A create config with only a model keeps the provider and key.
    engine.configure_model(selection(None, Some("mock-1"), None), None);
    let model = resolve_registry_model(registry(&engine.selection, false)).expect("resolved model");
    assert_eq!(model.provider, "battery");
    assert_eq!(
        resolve_request_api_key(&engine.selection, Some("sk-battery")).as_deref(),
        Some("flag-key")
    );
}

#[test]
fn agent_engine_reports_model_resolution_failures() {
    let engine = AgentSessionEngine::new(
        config(Some("no-such-provider"), Some("some-model"), None),
        None,
        None,
    );
    let PromptStart::Turns { accepted } = run_prompt("hi", None, &Vec::new(), 7) else {
        panic!("a plain prompt");
    };
    assert!(matches!(accepted, EngineEvent::UserMessage(_)));
    let error = resolve_registry_model(registry(&engine.selection, false)).unwrap_err();
    assert!(error.contains("Unknown provider"));
    // The engine degrades to a done error with the resolver's message.
    let mut turns = before_turn("hi").0;
    let action = turns.run_turns(LoopEvent::Turned(run_model_turn(Err(error.clone()))));
    assert_eq!(action, LoopAction::Finish(LoopEnd::Done(Err(error))));
}

#[test]
fn configure_model_thinking_clamps_to_the_models_supported_levels() {
    let clamp = |requested: &str| match requested {
        "max" => "high".to_string(),
        other => other.to_string(),
    };
    let mut engine = AgentSessionEngine::new(
        config(Some("battery"), Some("mock-1"), None),
        None,
        None,
    );
    let medium = clamp("medium");
    assert_eq!(engine.effective_thinking(Some(&medium)), "medium");
    engine.configure_model(selection(None, None, Some("max")), Some(&clamp("max")));
    assert_eq!(engine.effective_thinking(Some(&clamp("max"))), "high");
    engine.configure_model(selection(None, None, Some("low")), Some(&clamp("low")));
    assert_eq!(engine.effective_thinking(Some(&clamp("low"))), "low");
}

#[test]
fn models_that_cannot_be_named_are_reported() {
    assert_eq!(
        resolve_registry_model(RegistryLookup::Unnamed {
            startup: None,
            first: Some(battery())
        }),
        Ok(battery())
    );
    assert!(resolve_registry_model(RegistryLookup::Unnamed {
        startup: None,
        first: None
    })
    .is_err());
    assert!(resolve_registry_model(RegistryLookup::Named {
        model: None,
        error: None
    })
    .is_err());
    assert_eq!(model_selector(&battery()), "battery/mock-1");
    assert!(telemetry_enabled(None));
    assert!(!telemetry_enabled(Some(true)));
}

#[test]
fn prompt_images_ride_the_user_message_content() {
    let images = vec![ImageContent {
        data: "QUJD".to_string(),
        mime_type: "image/png".to_string(),
    }];
    let PromptStart::Turns { accepted } = run_prompt("look at this", None, &images, 7) else {
        panic!("a plain prompt");
    };
    let EngineEvent::UserMessage(user) = accepted else {
        panic!("user message emitted");
    };
    let user = to_value(&user);
    assert_eq!(
        user["content"][0],
        value(r#"{"type":"text","text":"look at this"}"#)
    );
    assert_eq!(
        user["content"][1],
        value(r#"{"type":"image","data":"QUJD","mimeType":"image/png"}"#)
    );
    // Images go with the first turn alone.
    let (_, action) = before_turn("look at this");
    assert!(matches!(action, LoopAction::RunTurn { with_images: true, .. }));
}

#[test]
fn custom_messages_are_accepted_as_they_are() {
    let custom = json(r#"{"role":"custom","content":"note"}"#);
    assert_eq!(
        accepted_row("text", Some(&custom), &Vec::new(), 7),
        EngineEvent::CustomMessage(json(r#"{"role":"custom","content":"note"}"#))
    );
    assert!(matches!(
        run_prompt("text", Some(&custom), &Vec::new(), 7),
        PromptStart::Turns { .. }
    ));
    assert!(matches!(
        run_prompt("/compact", None, &Vec::new(), 7),
        PromptStart::Command(_)
    ));
}

#[test]
fn requested_compaction_skip_records_the_durable_outcome_row() {
    let (events, stops) = run_turn_boundary(BoundaryRequests {
        compaction: Some(CompactOutcome::Skipped(
            "Session is too short to compact — try again once it grows".to_string(),
        )),
        refinement: None,
    });
    assert!(stops);
    let rows: Vec<Value> = custom_rows(&events);
    assert_eq!(rows.len(), 1);
    assert_eq!(rows[0]["details"]["reason"], "requested");
    assert_eq!(rows[0]["details"]["outcome"], "skipped");
    assert_eq!(
        rows[0]["content"],
        "Requested compaction skipped: Session is too short to compact — try again once it grows"
    );
    let end = compaction_events(&events).pop().unwrap();
    assert_eq!(end["type"], "compaction_end");
    assert_eq!(end["reason"], "requested");
    assert_eq!(end["errorSeverity"], "warning");
    assert_eq!(
        end["errorMessage"],
        "Requested compaction skipped: Session is too short to compact — try again once it grows"
    );
    assert_eq!(boundary_verdict(stops, true), BoundaryRun::StoppedForCompaction);
    assert_eq!(boundary_verdict(stops, false), BoundaryRun::Cancelled);
    assert_eq!(boundary_verdict(false, true), BoundaryRun::Proceed);
}

#[test]
fn refinements_are_told_where_they_changed_something() {
    let refined = |applied_edits: Vec<bool>| {
        run_turn_boundary(BoundaryRequests {
            compaction: None,
            refinement: Some(RefinementRun {
                applied_edits,
                notice: json(r#"{"role":"custom","content":"refined"}"#),
            }),
        })
    };
    let (events, stops) = refined(vec![false, true]);
    assert_eq!(custom_rows(&events).len(), 1);
    assert!(!stops);
    assert!(refined(vec![false]).0.is_empty());
}

#[test]
fn compact_session_command_emits_the_ts_event_pair_on_a_skip() {
    let command = parse_prompt_session_command("/compact").unwrap();
    let echo = json(r#"{"role":"custom","customType":"session_slash_command","content":"/compact"}"#);
    let execution = SessionCommandExecution {
        messages: vec![echo],
        compaction: Some((
            CompactionOutcome::Skipped {
                message: "Session is too short to compact \u{2014} try again once it grows"
                    .to_string(),
            },
            Json::Null,
        )),
        continuation_prompt: None,
        error: None,
    };
    let events = run_session_command(&command, &execution);
    let rows = custom_rows(&events);
    assert_eq!(rows.len(), 1, "echo only, no result row: {rows:?}");
    assert_eq!(rows[0]["customType"], "session_slash_command");
    assert_eq!(rows[0]["content"], "/compact");
    let compaction = compaction_events(&events);
    assert_eq!(compaction.len(), 2, "start + end: {compaction:?}");
    assert_eq!(
        compaction[0],
        value(r#"{"type":"compaction_start","reason":"manual"}"#)
    );
    assert_eq!(
        compaction[1],
        value(
            r#"{"type":"compaction_end","reason":"manual","aborted":false,"willRetry":false,
                "errorMessage":"Session is too short to compact — try again once it grows",
                "errorSeverity":"warning"}"#
        )
    );
    assert_eq!(
        settle_session_command(execution, true),
        CommandEnd::Done(Ok(()))
    );
}

#[test]
fn compact_session_command_emits_the_result_on_success() {
    let command = parse_prompt_session_command("/compact focus on the goal").unwrap();
    let echo = json(
        r#"{"role":"custom","customType":"session_slash_command","content":"/compact focus on the goal"}"#,
    );
    let run = CompactionRun {
        result: json(
            r###"{"summary":"## Summary\nthe session story","firstKeptEntryId":"e2","tokensBefore":24000}"###,
        ),
        usage: None,
    };
    let execution = SessionCommandExecution {
        messages: vec![echo],
        compaction: Some((CompactionOutcome::Compacted { run }, json(r#"{"id":"c1"}"#))),
        continuation_prompt: None,
        error: None,
    };
    let events = run_session_command(&command, &execution);
    let compaction = compaction_events(&events);
    assert_eq!(compaction.len(), 2, "{compaction:?}");
    assert_eq!(
        compaction[0],
        value(
            r#"{"type":"compaction_start","reason":"manual","customInstructions":"focus on the goal"}"#
        )
    );
    let end = &compaction[1];
    assert_eq!(end["type"], "compaction_end");
    assert_eq!(end["reason"], "manual");
    assert_eq!(end["aborted"], false);
    assert_eq!(end["customInstructions"], "focus on the goal");
    let result = end["result"].as_object().expect("the result payload");
    assert_eq!(result["summary"], "## Summary\nthe session story");
    assert!(result["tokensBefore"].as_u64().unwrap_or_default() > 0);
    let rows = custom_rows(&events);
    assert_eq!(rows.len(), 1, "the /compact echo only: {rows:?}");
    assert_eq!(rows[0]["customType"], "session_slash_command");
}

/// A loop that has asked for its first turn, and that request.
fn before_turn(prompt: &str) -> (TurnLoop, LoopAction) {
    let (mut turns, first) = TurnLoop::begin(prompt);
    assert_eq!(first, LoopAction::LookAfterStaleOverflow);
    assert_eq!(
        turns.run_turns(LoopEvent::PreOverflow { accepted: true }),
        LoopAction::CheckThreshold
    );
    let action = turns.run_turns(LoopEvent::Compacted(AutoCompactionRun::NotDue));
    (turns, action)
}

fn settled() -> FinalMessage {
    FinalMessage {
        stop_reason: StopReason::Stop,
        error_message: None,
    }
}

#[test]
fn the_turn_loop_is_driven_by_the_driver_trait() {
    let stop_row = json(
        r#"{"role":"custom","content":"[autonomous-stop: limit-reached]","details":{"stopReason":"maxTurns"}}"#,
    );
    // The follow-ups of a driver, in the order it gives them.
    let mut follow_ups = vec![
        FollowUp::Stop { row: stop_row },
        FollowUp::Continue {
            text: "scripted continuation".to_string(),
        },
    ];
    let mut users = vec!["go".to_string()];
    let mut prompts = Vec::new();
    let mut accounted = 0;
    let (mut turns, mut action) = TurnLoop::begin("go");
    let end = loop {
        action = match action {
            LoopAction::LookAfterStaleOverflow => {
                turns.run_turns(LoopEvent::PreOverflow { accepted: true })
            }
            LoopAction::CheckThreshold => {
                turns.run_turns(LoopEvent::Compacted(AutoCompactionRun::NotDue))
            }
            LoopAction::RunTurn { prompt, .. } => {
                prompts.push(prompt);
                if accounts_message(StopReason::Stop) {
                    accounted += 1;
                }
                turns.run_turns(LoopEvent::Turned(run_model_turn(Ok(settled()))))
            }
            LoopAction::ServeRequests => turns.run_turns(LoopEvent::Served(BoundaryRun::Proceed)),
            LoopAction::AskDriver => {
                let next = follow_ups.pop().unwrap_or(FollowUp::Inactive);
                turns.run_turns(LoopEvent::Follow(next))
            }
            LoopAction::TellContinuation { text } => {
                users.push(text);
                turns.run_turns(LoopEvent::Continued { accepted: true })
            }
            LoopAction::RunOverflowArm => panic!("no turn overflows"),
            LoopAction::Finish(end) => break end,
        };
    };
    assert_eq!(
        users,
        vec!["go".to_string(), "scripted continuation".to_string()]
    );
    assert_eq!(prompts, users);
    let LoopEnd::RowThenDone(stop) = end else {
        panic!("durable stop row");
    };
    let stop = to_value(&stop);
    assert!(stop["content"].as_str().unwrap().starts_with("[autonomous-stop:"));
    assert_eq!(stop["details"]["stopReason"], "maxTurns");
    // Per-message accounting ran for both settled turns.
    assert_eq!(accounted, 2);
}

#[test]
fn errors_are_not_accounted() {
    assert!(!accounts_message(StopReason::Error));
    assert!(accounts_message(StopReason::Length));
    assert_eq!(goal_usage_id(StopReason::Error, 5), None);
    assert!(goal_usage_id(StopReason::Stop, 5).is_some());
}

#[test]
fn agent_engine_streams_updates_and_final_message() {
    let PromptStart::Turns { accepted } = run_prompt("hi", None, &Vec::new(), 7) else {
        panic!("a plain prompt");
    };
    let wire = || {
        json(
            r#"{"role":"assistant","content":[{"type":"text","text":"streamed answer"}],"stopReason":"stop"}"#,
        )
    };
    let message = || LoopMessage {
        kind: MessageKind::Assistant,
        wire: Some(wire()),
    };
    let stream = [
        AgentEvent::MessageStart { message: message() },
        AgentEvent::MessageUpdate {
            message: message(),
            stream: StreamEvent::TextDelta("streamed".to_string()),
        },
        AgentEvent::MessageEnd { message: message() },
    ];
    let mut events = vec![accepted];
    events.extend(stream.iter().filter_map(forward_event));
    assert!(matches!(&events[0], EngineEvent::UserMessage(_)));
    assert!(events
        .iter()
        .any(|event| matches!(event, EngineEvent::AssistantUpdate { .. })));
    let final_index = events
        .iter()
        .position(|event| matches!(event, EngineEvent::AssistantMessage(_)))
        .expect("final assistant message");
    let EngineEvent::AssistantMessage(message) = &events[final_index] else {
        unreachable!();
    };
    let message = to_value(message);
    assert_eq!(message["content"][0]["text"], "streamed answer");
    assert_eq!(message["role"], "assistant");
    assert_eq!(message["stopReason"], "stop");
    // The turn settles, and without a driver the prompt is done.
    let mut turns = before_turn("hi").0;
    turns.run_turns(LoopEvent::Turned(run_model_turn(Ok(settled()))));
    turns.run_turns(LoopEvent::Served(BoundaryRun::Proceed));
    turns.run_turns(LoopEvent::Compacted(AutoCompactionRun::NotDue));
    assert_eq!(
        turns.run_turns(LoopEvent::Follow(FollowUp::Inactive)),
        LoopAction::Finish(LoopEnd::Done(Ok(())))
    );
}

#[test]
fn stream_events_carry_their_delta() {
    assert_eq!(
        stream_event_value(&StreamEvent::ToolCallDelta("{".to_string())).map(|v| to_value(&v)),
        Some(value(r#"{"type":"toolcall_delta","delta":"{"}"#))
    );
    assert_eq!(
        stream_event_value(&StreamEvent::ThinkingStart).map(|v| to_value(&v)),
        Some(value(r#"{"type":"thinking_start"}"#))
    );
    assert!(stream_event_value(&StreamEvent::Done).is_none());
    let result = ToolResult {
        content: vec![json(r#"{"type":"text","text":"ok"}"#)],
        details: Json::Null,
    };
    let event = AgentEvent::ToolExecutionEnd {
        tool_call_id: "t1".to_string(),
        result,
        is_error: true,
    };
    assert!(matches!(
        forward_event(&event),
        Some(EngineEvent::ToolExecutionEnd { is_error: true, .. })
    ));
    assert!(forward_event(&AgentEvent::Other).is_none());
}

#[test]
fn forwarded_turns_settle_once() {
    let mut forwarding = Forwarding::new();
    assert!(forwarding.step(ForwardEvent::Handed { accepted: true }));
    assert!(!forwarding.step(ForwardEvent::Settled {
        error: None,
        drained: true,
    }));
    let messages = vec![
        LoopMessage {
            kind: MessageKind::Assistant,
            wire: Some(Json::object()),
        },
        LoopMessage {
            kind: MessageKind::ToolResult,
            wire: None,
        },
    ];
    assert_eq!(
        run_turn_once(forwarding, &messages),
        TurnOnce::Message { at: 0 }
    );
    let mut refused = Forwarding::new();
    refused.step(ForwardEvent::Handed { accepted: false });
    assert_eq!(run_turn_once(refused, &messages), TurnOnce::Aborted);
    assert_eq!(
        run_turn_once(Forwarding::new(), &Vec::new()),
        TurnOnce::NoAnswer
    );
    let mut failed = Forwarding::new();
    failed.step(ForwardEvent::Settled {
        error: Some("boom".to_string()),
        drained: true,
    });
    assert_eq!(
        run_turn_once(failed, &messages),
        TurnOnce::Failed {
            error: "boom".to_string()
        }
    );
}

#[test]
fn retries_drop_the_failed_answer() {
    assert_eq!(
        attempt_start(TurnAdmission::FreshPrompt, 0),
        AttemptStart::Prompt
    );
    assert_eq!(
        attempt_start(TurnAdmission::FreshPrompt, 1),
        AttemptStart::DropAndContinue
    );
    assert_eq!(
        attempt_start(TurnAdmission::Continue, 0),
        AttemptStart::DropAndContinue
    );
    let mut messages = vec![
        LoopMessage {
            kind: MessageKind::User,
            wire: None,
        },
        LoopMessage {
            kind: MessageKind::Assistant,
            wire: None,
        },
    ];
    assert!(drop_trailing_assistant(&mut messages));
    assert!(!drop_trailing_assistant(&mut messages));
    assert_eq!(messages.len(), 1);
    assert_eq!(retry_wait(true, true), RetryWait::Stop);
    assert_eq!(retry_wait(false, true), RetryWait::Retry);
    assert!(matches!(retry_wait(false, false), RetryWait::Sleep { .. }));
}

#[test]
fn failovers_go_back_to_the_primary() {
    let target = |id: &str| FailoverTarget {
        model: ModelRef {
            provider: "battery".to_string(),
            id: id.to_string(),
        },
        thinking: "medium".to_string(),
        api_key: None,
    };
    let mut failover = Failover {
        current: target("a"),
        primary: None,
    };
    failover.switch(target("b"));
    failover.switch(target("c"));
    assert_eq!(failover.current.model.id, "c");
    assert_eq!(failover.restore().as_deref(), Some("battery/a"));
    assert_eq!(failover.current.model.id, "a");
    let mut untouched = Failover {
        current: target("a"),
        primary: None,
    };
    assert_eq!(untouched.restore(), None);
    let start = AutoRetryEvent::Start {
        attempt: 1,
        max_attempts: 3,
        delay_ms: 0,
        error_message: "overloaded".to_string(),
        reason: RetryStartReason::Backup {
            model: "battery/b".to_string(),
        },
    };
    assert!(is_failover(&start));
    assert!(matches!(
        retry_event_to_engine_event(start),
        EngineEvent::AutoRetryStart { attempt: 1, .. }
    ));
}

#[test]
fn only_answered_errors_reach_the_overflow_arm() {
    let overflow = run_model_turn(Ok(FinalMessage {
        stop_reason: StopReason::Error,
        error_message: Some("too long".to_string()),
    }));
    assert_eq!(
        overflow,
        TurnResult::Error {
            error: "too long".to_string(),
            answered: true
        }
    );
    assert!(!resets_overflow_recovery(&overflow));
    let mut turns = before_turn("go").0;
    assert_eq!(
        turns.run_turns(LoopEvent::Turned(overflow)),
        LoopAction::RunOverflowArm
    );
    // A retried turn continues the loop's messages.
    turns.run_turns(LoopEvent::Overflowed(OverflowArmRun::RetryTurn));
    turns.run_turns(LoopEvent::PreOverflow { accepted: true });
    assert_eq!(
        turns.run_turns(LoopEvent::Compacted(AutoCompactionRun::NotDue)),
        LoopAction::RunTurn {
            admission: TurnAdmission::Continue,
            prompt: "go".to_string(),
            with_images: false
        }
    );
    assert_eq!(
        turns.run_turns(LoopEvent::Turned(TurnResult::Aborted)),
        LoopAction::Finish(LoopEnd::DropRequestsThenDone(Err(
            "No response produced.".to_string()
        )))
    );
    assert_eq!(
        attempt_message(TurnOnce::NoAnswer, StopReason::Stop, None),
        Err("No response produced.".to_string())
    );
}

#[test]
fn depth_bounds_survive_a_restart() {
    let entry = |data: Json| {
        Json::object()
            .field("type", Json::string("custom"))
            .field("customType", Json::string("rlm_max_depth_state"))
            .field("data", data)
    };
    let entries = vec![entry(max_depth_entry(3)), entry(max_depth_entry(5))];
    assert_eq!(persisted_rlm_max_depth(&entries), Some(5));
    assert_eq!(
        resolve_rlm_max_depth(Some(5), Some(2), Some(7), Some("9")),
        (5, DepthSource::Chat)
    );
    assert_eq!(
        resolve_rlm_max_depth(None, Some(2), Some(7), Some("9")),
        (2, DepthSource::Inherited)
    );
    assert_eq!(
        resolve_rlm_max_depth(None, None, Some(7), Some("9")),
        (7, DepthSource::Global)
    );
    assert_eq!(
        resolve_rlm_max_depth(None, None, None, Some("9")),
        (9, DepthSource::Env)
    );
    assert_eq!(
        resolve_rlm_max_depth(None, None, None, Some("x")).1,
        DepthSource::Default
    );
    let mut engine = AgentSessionEngine::new(config(None, None, None), None, None);
    let (answer, told) = engine.set_rlm_max_depth(4, false, None, false);
    assert!(told.is_none());
    assert!(to_value(&answer).is_object());
    let flushed = engine.flush_pending_max_depth().expect("the waiting entry");
    assert_eq!(persisted_rlm_max_depth(&vec![entry(flushed)]), Some(4));
    assert!(engine.flush_pending_max_depth().is_none());
}

#[test]
fn goal_states_are_told_once() {
    let state = || json(r#"{"goal":"ship"}"#);
    let mut published = PublishedGoal { state: None };
    assert!(goal_update(&mut published, Some((state(), false))).is_some());
    assert!(goal_update(&mut published, Some((state(), false))).is_none());
    assert!(goal_update(&mut published, None).is_none());
    // An idle state is taken as it is found.
    let mut idle = PublishedGoal { state: None };
    assert!(goal_update(&mut idle, Some((state(), true))).is_none());
    assert!(goal_update(&mut idle, Some((json("{}"), true))).is_some());
}

#[test]
fn compactions_are_told_by_their_outcome() {
    assert_eq!(
        run_compaction(CompactionCall::Unavailable("no session".to_string())),
        CompactionOutcome::Failed {
            error: "no session".to_string()
        }
    );
    assert_eq!(run_compaction(CompactionCall::Aborted), CompactionOutcome::Aborted);
    let ran = run_compaction(CompactionCall::Ran {
        summary: "s".to_string(),
        first_kept_entry_id: "e".to_string(),
        tokens_before: 9,
        usage: None,
    });
    let CompactionOutcome::Compacted { run } = ran else {
        panic!("a compaction that ran");
    };
    assert_eq!(
        to_value(&run.result),
        value(r#"{"summary":"s","firstKeptEntryId":"e","tokensBefore":9}"#)
    );
}

#[test]
fn side_questions_and_branch_summaries_settle() {
    assert_eq!(
        side_question_outcome(SideQuestionCall::Unavailable("no model".to_string())),
        SideQuestionOutcome::Failed {
            answer: String::new(),
            error: "no model".to_string()
        }
    );
    assert_eq!(
        side_question_outcome(SideQuestionCall::Cancelled {
            answer: "so far".to_string()
        }),
        SideQuestionOutcome::Aborted {
            answer: "so far".to_string()
        }
    );
    let result = |summary: Option<&str>, aborted: bool, error: Option<&str>| BranchSummaryResult {
        aborted,
        error: error.map(str::to_string),
        summary: summary.map(str::to_string),
        usage: None,
        read_files: Json::array(Vec::new()),
        modified_files: Json::array(Vec::new()),
    };
    assert_eq!(
        run_branch_summary(Some(result(Some("s"), true, None))),
        BranchSummaryOutcome::Aborted
    );
    assert_eq!(
        run_branch_summary(Some(result(None, false, Some("boom")))),
        BranchSummaryOutcome::Failed {
            error: "boom".to_string()
        }
    );
    assert!(matches!(
        run_branch_summary(Some(result(Some("s"), false, None))),
        BranchSummaryOutcome::Complete { .. }
    ));
}

#[test]
fn models_and_tools_are_described() {
    let described = to_value(&model_metadata(&battery(), "Mock", true));
    assert_eq!(described["id"], "mock-1");
    assert_eq!(described["provider"], "battery");
    let tools = vec![ToolInfo {
        name: "bash".to_string(),
        label: "Bash".to_string(),
        description: "runs".to_string(),
        parameters: Json::object(),
    }];
    assert_eq!(
        to_value(&tool_definition(&tools, "bash").unwrap())["name"],
        "bash"
    );
    assert!(tool_definition(&tools, "edit").is_none());
}

#[test]
fn identities_reach_the_children() {
    let mut linked = config(None, None, None);
    linked.supervisor_link = Some(SupervisorLinkConfig {
        socket_path: "/s.sock".to_string(),
        active_session_id: "a1".to_string(),
        worker_token: "t".to_string(),
    });
    let mut engine = AgentSessionEngine::new(linked, None, None);
    let identity = RlmSessionIdentity {
        rlm_depth: 1,
        rlm_max_depth: Some(3),
        cwd: Some("/work".to_string()),
        session_id: Some("s1".to_string()),
        session_file: None,
        thinking: None,
    };
    engine
        .configure_rlm_identity(&identity, true, None, None, None)
        .unwrap();
    let status = to_value(&engine.rlm_max_depth_status());
    assert_eq!(status["source"], "inherited");
    assert_eq!(status["maxDepth"], 3);
}

#[test]
fn artifacts_are_shown_below_the_working_directory() {
    assert_eq!(logical_artifact_path("/work", "/work/docs/a.md"), "docs/a.md");
    assert_eq!(logical_artifact_path("/work", "/workshop/a.md"), "a.md");
    assert_eq!(logical_artifact_path("/work", "/work"), "work");
    assert_eq!(logical_artifact_path("/work", "<inline>"), "<inline>");
    assert_eq!(logical_artifact_path("/work", "/"), "artifact");
    assert_eq!(shown_path("/x", Some("a\\b"), None), "a/b");
    assert_eq!(shown_path("/x", Some("../b"), Some("b")), "b");
    assert_eq!(shown_path("/x", None, None), "artifact");
    let reference = artifact_reference("s1", "/work", "skill", "/work/a.md").unwrap();
    let reference = to_value(&reference);
    assert_eq!(reference["logicalPath"], "a.md");
    assert_eq!(reference["relativePath"], "a.md");
    assert_eq!(reference["sessionId"], "s1");
    assert_eq!(reference["id"].as_str().unwrap().len(), "artifact_".len() + 16);
    assert!(artifact_reference("s1", "/work", "skill", "").is_none());
    let placed = placed_artifact("s1", "skill", "/x/b", &vec![0xab; 32], None, Some("b")).unwrap();
    assert_eq!(
        to_value(&placed),
        value(
            r#"{"id":"artifact_abababababababab","sessionId":"s1","type":"skill","logicalPath":"b"}"#
        )
    );
}

#[test]
fn scripted_sessions_never_fail_over() {
    let mut engine = AgentSessionEngine::new(config(None, None, None), None, None);
    assert_eq!(engine.failover_candidates(vec![battery()]), vec![battery()]);
    engine.config.faux_script = Some("{}".to_string());
    assert!(engine.failover_candidates(vec![battery()]).is_empty());
}

#[test]
fn resources_are_shown_to_clients() {
    let extensions = vec![ExtensionCommand {
        invocation_name: "ext".to_string(),
        name: "ext".to_string(),
        description: None,
    }];
    let templates = vec![PromptTemplate {
        name: "fix".to_string(),
        description: "fixes".to_string(),
        argument_hint: None,
        source_info: Json::object(),
        file_path: "/p/fix.md".to_string(),
    }];
    let skills = vec![Skill {
        name: "deploy".to_string(),
        description: "deploys".to_string(),
        source_info: Json::object(),
        file_path: "/s/SKILL.md".to_string(),
    }];
    let commands = connection_commands(&extensions, &templates, &skills);
    assert_eq!(commands.len(), 3);
    assert_eq!(to_value(&commands[0])["name"], "ext");
    assert_eq!(to_value(&commands[1])["name"], "fix");
    let snapshot = to_value(&resource_snapshot(
        "s1",
        "/work",
        &vec!["/work/AGENTS.md".to_string()],
        &skills,
        &templates,
        &Json::empty_array(),
        &vec!["broken".to_string()],
    ));
    assert!(snapshot.is_object());
    assert!(snapshot.to_string().contains("broken"));
    assert_eq!(
        snapshot["contextFiles"][0]["artifact"]["logicalPath"],
        "AGENTS.md"
    );
    assert_eq!(snapshot["skills"][0]["artifact"]["logicalPath"], "SKILL.md");
}

#[test]
fn engines_keep_what_they_are_told() {
    let mut engine = AgentSessionEngine::new(
        config(None, None, None),
        Some("battery".to_string()),
        Some("mock-1".to_string()),
    );
    assert_eq!(engine.selection.provider.as_deref(), Some("battery"));
    assert_eq!(requested_thinking(None, None), "medium");
    assert_eq!(requested_thinking(None, Some("low")), "low");
    assert_eq!(requested_thinking(Some("high"), Some("low")), "high");
    assert!(!engine.switch_model(selection(Some("x"), None, None), false, None));
    assert_eq!(engine.selection.provider.as_deref(), Some("x"));
    assert_eq!(engine.effective_thinking(None), "off");
    assert_eq!(
        engine.switch_thinking_level("max".to_string(), Some("high")),
        "high"
    );
    assert_eq!(engine.selection.thinking.as_deref(), Some("max"));
    engine.set_session_file("/s.jsonl".to_string());
    assert_eq!(engine.session_file.as_deref(), Some("/s.jsonl"));
    engine.set_session_summary(Json::object());
    assert_eq!(engine.own_summary, Some(Json::object()));
    assert!(engine
        .rebuild_session_context(vec![Json::Null], true)
        .is_some());
    assert!(engine
        .rebuild_session_context(vec![Json::Null], false)
        .is_none());
    assert_eq!(engine.take_pending_branch(), Some(vec![Json::Null]));
    assert_eq!(engine.take_pending_branch(), None);
    let goal = || json(r#"{"goal":"ship"}"#);
    assert_eq!(engine.goal_state_value(None, Json::object()), Json::object());
    assert!(engine.goal_update_if_changed(Some((goal(), false))).is_some());
    assert_eq!(engine.goal_state_value(None, Json::object()), goal());
}

fn custom_rows(events: &[EngineEvent]) -> Vec<Value> {
    events
        .iter()
        .filter_map(|event| match event {
            EngineEvent::CustomMessage(row) => Some(to_value(row)),
            _ => None,
        })
        .collect()
}

fn compaction_events(events: &[EngineEvent]) -> Vec<Value> {
    events
        .iter()
        .filter_map(|event| match event {
            EngineEvent::CompactionStart { event } | EngineEvent::Compaction { event, .. } => {
                Some(to_value(event))
            }
            _ => None,
        })
        .collect()
}

/// A library value as a `serde_json` one, whose objects have no order.
fn to_value(json: &Json) -> Value {
    match json {
        Json::Null => Value::Null,
        Json::Bool(b) => Value::Bool(*b),
        Json::Number(Number::Unsigned(n)) => Value::from(*n),
        Json::Number(Number::Negative(n)) => Value::from(*n),
        Json::Number(Number::Other(text)) => serde_json::from_str(text).unwrap(),
        Json::Str(text) => Value::from(text.as_str()),
        Json::Array(items) => Value::Array(items.iter().map(to_value).collect()),
        Json::Object(members) => Value::Object(
            members
                .iter()
                .map(|(name, value)| (name.clone(), to_value(value)))
                .collect(),
        ),
    }
}

/// A JSON text as a `serde_json` value.
fn value(text: &str) -> Value {
    serde_json::from_str(text).unwrap()
}
/// A `serde_json` value as a library one.
fn from_value(value: &Value) -> Json {
    match value {
        Value::Null => Json::Null,
        Value::Bool(b) => Json::Bool(*b),
        Value::Number(n) => match (n.as_u64(), n.as_i64()) {
            (Some(n), _) => Json::Number(Number::Unsigned(n)),
            (None, Some(n)) => Json::Number(Number::Negative(n)),
            _ => Json::Number(Number::Other(n.to_string())),
        },
        Value::String(text) => Json::string(text),
        Value::Array(items) => Json::array(items.iter().map(from_value).collect()),
        Value::Object(members) => Json::Object(
            members
                .iter()
                .map(|(name, value)| (name.clone(), from_value(value)))
                .collect(),
        ),
    }
}

/// A JSON text as a library value.
fn json(text: &str) -> Json {
    from_value(&serde_json::from_str(text).unwrap())
}

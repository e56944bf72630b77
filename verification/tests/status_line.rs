//! Status lines: the context they are made from and how the reply is read.
use pa_daemon::json::{Json, Number};
use pa_daemon::status_line::{
    build_status_context, clamp, clean_recap, generated_status, last_tag_content,
    parse_agent_status, resolve_summary_model, run_step, should_summarize, summarize, tag_content_in,
    AgentTaskState, GeneratedStatus, ModelFacts, NotifySource, WaitAction, WaitEnd, WaitState,
    SUMMARY_MODEL_ID, SUMMARY_MODEL_PROVIDER,
};
use serde_json::Value;

fn messages() -> Vec<Json> {
    let all = json(
        r#"[
            { "role": "user", "content": [{ "type": "text", "text": "please add tests" }] },
            { "role": "assistant", "content": [
                { "type": "text", "text": "running the suite now" },
                { "type": "tool_use", "name": "ipython", "id": "t1" }
            ] },
            { "role": "toolResult", "content": [{ "type": "text", "text": "all green" }] }
        ]"#,
    );
    all.as_array().unwrap().iter().map(|m| m.duplicate()).collect()
}

#[test]
fn context_body_matches_the_ts_shape() {
    let body = build_status_context(&messages(), false);
    assert_eq!(
        body,
        "<agent-state>idle (finished its turn)</agent-state>\n<conversation>\n\
         user: please add tests\n\
         assistant: running the suite now [tools: ipython]\n\
         toolResult: all green\n</conversation>"
    );
    assert!(build_status_context(&messages(), true)
        .starts_with("<agent-state>working</agent-state>"));
}

#[test]
fn context_takes_the_trailing_messages_only() {
    let mut many = Vec::new();
    for i in 0..12 {
        many.push(json(&format!(
            r#"{{ "role": "user", "content": [{{ "type": "text", "text": "message {i}" }}] }}"#
        )));
    }
    let body = build_status_context(&many, false);
    assert!(body.contains("message 4"));
    assert!(body.contains("message 11"));
    assert!(!body.contains("message 3\n"));
}

#[test]
fn parse_takes_the_last_tags_and_defaults_idle_to_needs_input() {
    let parsed = parse_agent_status(
        "<recap>First</recap><status>COMPLETED</status><recap>Fixing the leak</recap>",
        false,
    )
    .expect("parsed");
    // The last recap wins; the only status tag wins.
    assert_eq!(parsed.summary, "Fixing the leak");
    assert_eq!(parsed.task_state, Some(AgentTaskState::Completed));
    let parsed = parse_agent_status(
        "<recap>queued</recap><status>COMPLETED</status><status>NEEDS_INPUT</status>",
        false,
    )
    .expect("parsed");
    assert_eq!(parsed.task_state, Some(AgentTaskState::NeedsInput));
    let parsed = parse_agent_status(
        "<recap>Refactoring the auth middleware</recap><status>COMPLETED</status>",
        false,
    )
    .expect("parsed");
    assert_eq!(parsed.task_state, Some(AgentTaskState::Completed));
    // A working refresh carries no verdict.
    let parsed = parse_agent_status("<recap>running tests</recap>", true).expect("parsed");
    assert_eq!(parsed.task_state, None);
    // Normalized angle-bracket lookalikes still parse.
    let parsed = parse_agent_status(
        "\u{FF1C}recap\u{FF1E}queued the build\u{FF1C}/recap\u{FF1E}",
        true,
    )
    .expect("parsed");
    assert_eq!(parsed.summary, "queued the build");
}

#[test]
fn parse_rejects_prompt_echoes_and_counting_artifacts() {
    assert!(parse_agent_status("<recap></recap>", false).is_none());
    assert!(parse_agent_status("<recap>a present-tense clause</recap>", false).is_none());
    // The counting trailer is cut, and the surviving recap is kept.
    let parsed = parse_agent_status("<recap>Waiting for CI (3) = 4 words?</recap>", false)
        .expect("parsed");
    assert_eq!(parsed.summary, "Waiting for CI");
    assert!(
        parse_agent_status("<recap>Sending the patch. That's 5 words</recap>", false,).is_some()
    );
    let long: Vec<String> = (0..20).map(|i| format!("word{i}")).collect();
    assert!(parse_agent_status(&format!("<recap>{}</recap>", long.join(" ")), false).is_none());
}

#[test]
fn an_idle_reply_without_a_verdict_needs_input() {
    let parsed = parse_agent_status("<recap>waiting</recap>", false).unwrap();
    assert_eq!(parsed.task_state, Some(AgentTaskState::NeedsInput));
    assert_eq!(AgentTaskState::NeedsInput.as_str(), "needs_input");
    assert_eq!(AgentTaskState::Completed.as_str(), "completed");
    assert!(parse_agent_status("no tags at all", false).is_none());
}

#[test]
fn the_last_tag_is_read_whatever_its_case() {
    assert_eq!(
        last_tag_content("<recap>a</recap> <RECAP>b</RECAP>", "recap").as_deref(),
        Some("b")
    );
    assert_eq!(last_tag_content("nothing", "recap"), None);
}

#[test]
fn recaps_lose_their_quotes_and_their_trailer() {
    assert_eq!(
        clean_recap("\u{201C}Fixing the leak.\u{201D}").as_deref(),
        Some("Fixing the leak")
    );
    assert_eq!(
        clean_recap("Sending the patch. That's 5 words").as_deref(),
        Some("Sending the patch")
    );
    assert_eq!(clean_recap("   "), None);
}

#[test]
fn long_texts_are_clamped() {
    assert_eq!(clamp("short", 10), "short");
    let clamped = clamp("a long text indeed", 6);
    assert!(clamped.chars().count() <= 7);
    assert!(clamped.starts_with("a lon"));
}

#[test]
fn tags_are_found_case_aside() {
    assert_eq!(
        last_tag_content("<\u{c9}>x</\u{c9}>", "\u{e9}").as_deref(),
        Some("x")
    );
    assert_eq!(
        last_tag_content("<RECAP>Caf\u{c9}</Recap>", "recap").as_deref(),
        Some("Caf\u{c9}")
    );
    // A capital that becomes two letters moves nothing.
    assert_eq!(
        last_tag_content("\u{130}\u{130}<recap>\u{130}b</recap>", "recap").as_deref(),
        Some("\u{130}b")
    );
    assert_eq!(last_tag_content("<recap>x</recap>", "RECAP"), None);
    assert_eq!(
        tag_content_in("<T>x</T>", "<t>x</t>", &vec![0, 1, 2, 3, 4, 5, 6, 7], "t").as_deref(),
        Some("x")
    );
}

#[test]
fn the_summary_model_needs_its_key() {
    let model = |provider: &str, id: &str, has_auth: bool| ModelFacts {
        provider: provider.to_string(),
        id: id.to_string(),
        has_auth,
    };
    let other = || model("x", SUMMARY_MODEL_ID, true);
    let known = vec![other(), model(SUMMARY_MODEL_PROVIDER, SUMMARY_MODEL_ID, true)];
    assert_eq!(resolve_summary_model(&known), Some(1));
    let locked = vec![other(), model(SUMMARY_MODEL_PROVIDER, SUMMARY_MODEL_ID, false)];
    assert_eq!(resolve_summary_model(&locked), None);
    assert_eq!(resolve_summary_model(&vec![other()]), None);
}

#[test]
fn bursts_are_waited_out() {
    let mut state = WaitState::Idle;
    assert_eq!(run_step(&mut state, WaitEnd::Turn), WaitAction::WaitForQuiet);
    assert_eq!(run_step(&mut state, WaitEnd::Turn), WaitAction::WaitForQuiet);
    assert_eq!(
        run_step(&mut state, WaitEnd::Quiet),
        WaitAction::Summarize(NotifySource::TurnSettled)
    );
    assert_eq!(
        run_step(&mut state, WaitEnd::Sweep),
        WaitAction::Summarize(NotifySource::Sweep)
    );
    assert_eq!(run_step(&mut state, WaitEnd::Closed), WaitAction::Stop);
}

#[test]
fn an_idle_session_is_judged_and_told_once() {
    let first = summarize(&None, 2, false, None).unwrap();
    assert_eq!(first.status.task_state, Some(AgentTaskState::NeedsInput));
    assert!(first.broadcast);
    let generated = || {
        Some(GeneratedStatus {
            summary: "done".to_string(),
            task_state: Some(AgentTaskState::Completed),
        })
    };
    let second = summarize(&Some(first.status), 2, false, generated()).unwrap();
    assert!(second.broadcast);
    let third = summarize(&Some(second.status), 2, false, generated()).unwrap();
    assert!(!third.broadcast);
    assert!(!should_summarize(
        NotifySource::TurnSettled,
        2,
        false,
        &Some(third.status)
    ));
}

#[test]
fn failed_replies_give_no_status() {
    let blocks = vec!["<recap>running</recap>".to_string()];
    assert!(generated_status(true, &blocks, true).is_none());
    assert_eq!(
        generated_status(false, &blocks, true).unwrap().summary,
        "running"
    );
    assert!(!should_summarize(NotifySource::TurnSettled, 0, false, &None));
}

/// A `serde_json` value as a library one.
fn from_value(value: &Value) -> Json {
    match value {
        Value::Null => Json::Null,
        Value::Bool(b) => Json::Bool(*b),
        Value::Number(n) => match (n.as_u64(), n.as_i64()) {
            (Some(n), _) => Json::Number(Number::Unsigned(n)),
            (None, Some(n)) => Json::Number(Number::Negative(n)),
            _ => Json::Number(Number::Other(n.to_string())),
        },
        Value::String(text) => Json::string(text),
        Value::Array(items) => Json::array(items.iter().map(from_value).collect()),
        Value::Object(members) => Json::Object(
            members
                .iter()
                .map(|(name, value)| (name.clone(), from_value(value)))
                .collect(),
        ),
    }
}

/// A JSON text as a library value.
fn json(text: &str) -> Json {
    from_value(&serde_json::from_str(text).unwrap())
}

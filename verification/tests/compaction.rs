//! Compactions: their events, their entries and who an abort goes to.
use pa_daemon::auto_compaction::{
    auto_compaction_events, auto_compaction_verdict, run_auto_compaction, AutoCompactionRun,
    CompactOutcome,
};
use pa_daemon::compaction::{
    compaction_end_event, compaction_start_event, first_kept_entry_id, persist_compaction,
    wait_for_turn_end, CompactionManager, SettleStep,
};
use pa_daemon::engine::{CompactionOutcome, CompactionRun, EngineEvent};
use pa_daemon::json::{Json, Number};
use pa_daemon::session_window::SessionEntry;
use serde_json::Value;

#[test]
fn event_shapes_match_ts() {
    let run = CompactionRun {
        result: json(
            r#"{"summary":"the story so far","firstKeptEntryId":"abcd1234","tokensBefore":1234,
                "details":{"readFiles":["a.rs"],"modifiedFiles":[]}}"#,
        ),
        usage: None,
    };
    assert_eq!(
        to_value(&compaction_start_event(Some("focus on the goal"))),
        value(
            r#"{"type":"compaction_start","reason":"manual","customInstructions":"focus on the goal"}"#
        )
    );
    assert_eq!(
        to_value(&compaction_start_event(None)),
        value(r#"{"type":"compaction_start","reason":"manual"}"#)
    );
    assert_eq!(
        to_value(&compaction_end_event(
            &CompactionOutcome::Compacted { run },
            Some("focus")
        )),
        value(
            r#"{"type":"compaction_end","reason":"manual",
                "result":{"summary":"the story so far","firstKeptEntryId":"abcd1234",
                          "tokensBefore":1234,
                          "details":{"readFiles":["a.rs"],"modifiedFiles":[]}},
                "aborted":false,"willRetry":false,"customInstructions":"focus"}"#
        )
    );
    assert_eq!(
        to_value(&compaction_end_event(
            &CompactionOutcome::Skipped {
                message: "Session is too short to compact — try again once it grows".to_string(),
            },
            None,
        )),
        value(
            r#"{"type":"compaction_end","reason":"manual","aborted":false,"willRetry":false,
                "errorMessage":"Session is too short to compact — try again once it grows",
                "errorSeverity":"warning"}"#
        )
    );
    assert_eq!(
        to_value(&compaction_end_event(&CompactionOutcome::Aborted, None)),
        value(
            r#"{"type":"compaction_end","reason":"manual","aborted":true,"willRetry":false,
                "errorSeverity":"error"}"#
        )
    );
    assert_eq!(
        to_value(&compaction_end_event(
            &CompactionOutcome::Failed {
                error: "Summarization failed".to_string(),
            },
            None,
        )),
        value(
            r#"{"type":"compaction_end","reason":"manual","aborted":false,"willRetry":false,
                "errorMessage":"Compaction failed: Summarization failed","errorSeverity":"error"}"#
        )
    );
}

#[test]
fn threshold_skip_records_the_durable_outcome_row() {
    let start = run_auto_compaction(true, Some(true)).expect("threshold compaction_start emitted");
    let EngineEvent::CompactionStart { event } = start else {
        panic!("a start event");
    };
    assert_eq!(
        to_value(&event),
        value(r#"{"type":"compaction_start","reason":"threshold"}"#)
    );
    let events = auto_compaction_events(CompactOutcome::Skipped(
        "Session is too short to compact — try again once it grows".to_string(),
    ));
    assert_eq!(events.len(), 2);
    let message =
        "Auto-compaction skipped: Session is too short to compact — try again once it grows";
    let EngineEvent::CustomMessage(row) = &events[0] else {
        panic!("the outcome row was broadcast as a custom message");
    };
    let row = to_value(row);
    assert_eq!(row["role"], "custom");
    assert_eq!(row["customType"], "compaction_outcome");
    assert_eq!(row["content"], message);
    assert_eq!(row["display"], true);
    assert_eq!(
        row["details"],
        value(r#"{"reason":"threshold","outcome":"skipped"}"#)
    );
    let EngineEvent::Compaction { entry, event } = &events[1] else {
        panic!("the settled compaction_end follows the row");
    };
    assert!(entry.is_null());
    let event = to_value(event);
    assert_eq!(event["reason"], "threshold");
    assert_eq!(event["errorMessage"], message);
    assert_eq!(event["errorSeverity"], "warning");
    assert_eq!(event["aborted"], false);
    assert_eq!(event["willRetry"], false);
    assert!(event.get("result").is_none());
}

#[test]
fn threshold_crossing_auto_compacts_with_the_event_pair() {
    let events = auto_compaction_events(CompactOutcome::Ran {
        summary: "the summary".to_string(),
        first_kept_entry_id: "e1".to_string(),
        tokens_before: 9,
        entry: json(r#"{"firstKeptEntryId":"e1"}"#),
    });
    assert_eq!(events.len(), 1);
    let EngineEvent::Compaction { entry, event } = &events[0] else {
        panic!("compaction_end emitted");
    };
    let event = to_value(event);
    assert_eq!(event["reason"], "threshold");
    assert_eq!(event["result"]["summary"], "the summary");
    assert!(entry.get_str("firstKeptEntryId").is_some());
}

#[test]
fn threshold_below_the_headroom_stays_silent() {
    assert!(run_auto_compaction(true, Some(false)).is_none());
    assert!(run_auto_compaction(true, None).is_none());
    assert!(run_auto_compaction(false, Some(true)).is_none());
    assert_eq!(
        auto_compaction_verdict(false, true, true, true),
        AutoCompactionRun::NotDue
    );
    assert_eq!(
        auto_compaction_verdict(true, true, true, true),
        AutoCompactionRun::Ran
    );
    assert_eq!(
        auto_compaction_verdict(true, true, true, false),
        AutoCompactionRun::Cancelled
    );
    assert_eq!(
        auto_compaction_verdict(true, false, true, true),
        AutoCompactionRun::Cancelled
    );
    assert_eq!(
        auto_compaction_verdict(true, true, false, true),
        AutoCompactionRun::NotDue
    );
}

#[test]
fn failed_threshold_compactions_say_why() {
    let events = auto_compaction_events(CompactOutcome::Failed("no key".to_string()));
    let EngineEvent::Compaction { event, .. } = &events[1] else {
        panic!("an end event");
    };
    let event = to_value(event);
    assert_eq!(event["errorMessage"], "Auto-compaction failed: no key");
    assert_eq!(event["errorSeverity"], "error");
}

#[test]
fn only_the_own_run_clears_the_slot() {
    let mut manager = CompactionManager::new();
    assert_eq!(manager.abort(), None);
    manager.begin(1, None);
    manager.begin(2, None);
    manager.finish(1, &CompactionOutcome::Aborted, None);
    assert_eq!(manager.abort(), Some(2));
    manager.finish(2, &CompactionOutcome::Aborted, None);
    assert_eq!(manager.abort(), None);
    assert!(manager.auto_compaction_enabled);
    manager.set_auto_compaction(false);
    assert!(!manager.auto_compaction_enabled);
}

#[test]
fn a_running_turn_is_asked_to_abort() {
    let mut abort = false;
    assert_eq!(
        wait_for_turn_end(true, &mut abort),
        SettleStep::Wait { ms: 50 }
    );
    assert!(abort);
    let mut idle = false;
    assert_eq!(wait_for_turn_end(false, &mut idle), SettleStep::Proceed);
    assert!(!idle);
}

#[test]
fn compaction_entries_are_pinned_to_the_durable_cut() {
    let branch = vec![
        SessionEntry {
            id: "t".to_string(),
            parent_id: None,
            type_: "thinking_level_change".to_string(),
            fields: Json::object(),
        },
        SessionEntry {
            id: "m".to_string(),
            parent_id: Some("t".to_string()),
            type_: "message".to_string(),
            fields: Json::object(),
        },
    ];
    let reported = json(r#"{"summary":"s","firstKeptEntryId":"mem-1","tokensBefore":7}"#);
    assert_eq!(first_kept_entry_id(&reported, &branch, Some("cut")), "cut");
    assert_eq!(first_kept_entry_id(&reported, &branch, None), "mem-1");
    assert_eq!(first_kept_entry_id(&Json::object(), &branch, Some("cut")), "m");
    assert_eq!(first_kept_entry_id(&Json::object(), &Vec::new(), None), "");
    let run = CompactionRun {
        result: reported,
        usage: Some(Json::uint(3)),
    };
    let entry = to_value(&persist_compaction(&run, "cut", Some("focus")));
    assert_eq!(entry["summary"], "s");
    assert_eq!(entry["firstKeptEntryId"], "cut");
    assert_eq!(entry["tokensBefore"], 7);
    assert_eq!(entry["fromHook"], false);
    assert_eq!(entry["customInstructions"], "focus");
    assert_eq!(entry["usage"], 3);
}

/// A library value as a `serde_json` one, whose objects have no order.
fn to_value(json: &Json) -> Value {
    match json {
        Json::Null => Value::Null,
        Json::Bool(b) => Value::Bool(*b),
        Json::Number(Number::Unsigned(n)) => Value::from(*n),
        Json::Number(Number::Negative(n)) => Value::from(*n),
        Json::Number(Number::Other(text)) => serde_json::from_str(text).unwrap(),
        Json::Str(text) => Value::from(text.as_str()),
        Json::Array(items) => Value::Array(items.iter().map(to_value).collect()),
        Json::Object(members) => Value::Object(
            members
                .iter()
                .map(|(name, value)| (name.clone(), to_value(value)))
                .collect(),
        ),
    }
}

/// A JSON text as a `serde_json` value.
fn value(text: &str) -> Value {
    serde_json::from_str(text).unwrap()
}
/// A `serde_json` value as a library one.
fn from_value(value: &Value) -> Json {
    match value {
        Value::Null => Json::Null,
        Value::Bool(b) => Json::Bool(*b),
        Value::Number(n) => match (n.as_u64(), n.as_i64()) {
            (Some(n), _) => Json::Number(Number::Unsigned(n)),
            (None, Some(n)) => Json::Number(Number::Negative(n)),
            _ => Json::Number(Number::Other(n.to_string())),
        },
        Value::String(text) => Json::string(text),
        Value::Array(items) => Json::array(items.iter().map(from_value).collect()),
        Value::Object(members) => Json::Object(
            members
                .iter()
                .map(|(name, value)| (name.clone(), from_value(value)))
                .collect(),
        ),
    }
}

/// A JSON text as a library value.
fn json(text: &str) -> Json {
    from_value(&serde_json::from_str(text).unwrap())
}

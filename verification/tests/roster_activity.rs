//! When a worker reports its activity.
use pa_daemon::json::Json;
use serde_json::Value;
use pa_daemon::roster_activity::{
    frame_triggers_roster_flush, payload_triggers_roster_flush, reads_payload, roster_delta,
    roster_session_event_triggers, PayloadTags, RosterPushQueue,
};
use pa_daemon::worker::OutboundFrame;

const TRIGGERS: [&str; 14] = [
    "turn_start",
    "turn_end",
    "bash_start",
    "bash_end",
    "compaction_start",
    "compaction_end",
    "auto_retry_start",
    "auto_retry_end",
    "tool_execution_start",
    "tool_execution_end",
    "message_end",
    "session_action_update",
    "session_info_changed",
    "thinking_level_changed",
];

fn session_event_frame(event_type: &str) -> OutboundFrame {
    OutboundFrame::session_event(
        format!(
            r#"{{"type":"session_event","activeSessionId":"session-1","event":{{"type":"{event_type}"}}}}"#
        )
        .into_bytes(),
    )
}

/// What a well-formed payload says of itself.
fn tags(frame: &OutboundFrame) -> Option<PayloadTags> {
    if !reads_payload(frame) {
        return None;
    }
    let payload: Value = serde_json::from_slice(&frame.payload).ok()?;
    let event_kind = match &payload["event"] {
        Value::Null => None,
        event => Some(event["type"].as_str()?.to_string()),
    };
    Some(PayloadTags {
        kind: payload["type"].as_str()?.to_string(),
        event_kind,
    })
}

fn triggers(frame: &OutboundFrame) -> bool {
    frame_triggers_roster_flush(frame, &tags(frame))
}

#[test]
fn every_ts_trigger_event_type_flushes() {
    for event_type in TRIGGERS {
        assert!(
            triggers(&session_event_frame(event_type)),
            "{event_type} must trigger a roster flush"
        );
        assert!(roster_session_event_triggers(event_type));
    }
}

#[test]
fn non_trigger_events_and_frame_kinds_stay_silent() {
    for event_type in [
        "message_start",
        "message_update",
        "tool_execution_update",
        "agent_start",
        "agent_end",
        "goal_update",
        "ipython_sent_agent_message",
    ] {
        assert!(
            !triggers(&session_event_frame(event_type)),
            "{event_type} must not trigger a roster flush"
        );
    }
    // The status line flushes, a side question does not.
    assert!(triggers(&OutboundFrame::session_status(
        br#"{"type":"session_status","activeSessionId":"s"}"#.to_vec()
    )));
    assert!(!triggers(
        &OutboundFrame::side_question_event(
            br#"{"type":"side_question_event","activeSessionId":"s","event":{"type":"message_end"}}"#
                .to_vec()
        )
    ));
    assert!(triggers(&OutboundFrame::session_event(
        br#"{"type":"session_closed","activeSessionId":"s","reason":"done"}"#.to_vec()
    )));
    assert!(triggers(&OutboundFrame::session_event(
        br#"{"type":"session_replaced","activeSessionId":"s"}"#.to_vec()
    )));
}

#[test]
fn the_disabled_queue_never_pushes() {
    let mut queue = RosterPushQueue::disabled();
    queue.push();
    assert!(!queue.drain());
}

#[test]
fn payloads_that_cannot_be_read_stay_silent() {
    assert!(!triggers(&OutboundFrame::session_event(
        b"not json".to_vec()
    )));
    let plain = PayloadTags {
        kind: "session_event".to_string(),
        event_kind: None,
    };
    assert!(!payload_triggers_roster_flush(&plain));
    let ended = PayloadTags {
        kind: "session_closed".to_string(),
        event_kind: Some("message_start".to_string()),
    };
    assert!(payload_triggers_roster_flush(&ended));
}

#[test]
fn a_burst_makes_one_report() {
    let mut queue = RosterPushQueue::spawn(false, "token", "/s.sock");
    queue.push();
    let frame = session_event_frame("turn_end");
    queue.observe(&frame, &tags(&frame));
    let frame = session_event_frame("message_start");
    queue.observe(&frame, &tags(&frame));
    assert!(queue.drain());
    assert!(!queue.drain());
    assert!(!RosterPushQueue::spawn(true, "token", "/s.sock").enabled);
    assert!(!RosterPushQueue::spawn(false, "", "/s.sock").enabled);
    assert!(!RosterPushQueue::spawn(false, "token", "").enabled);
    let delta = roster_delta("token", Json::Null);
    assert_eq!(delta.get_str("type"), Some("worker_roster_delta"));
    assert_eq!(delta.get_str("workerToken"), Some("token"));
}

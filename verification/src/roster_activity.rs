//! When a worker reports its activity: the frames that make it report, and the
//! queue that makes one report of a burst of them.
use vstd::prelude::*;

use crate::json::{Json, JsonView};
use crate::text::{is_empty_text, opt_text, same_text};
use crate::worker::{FrameView, OutboundFrame};

verus! {

/// The variable that turns a worker's reports off.
pub const ROSTER_PUSH_DISABLE_ENV: &'static str = "PA_WORKER_DISABLE_ROSTER_PUSH";

/// Whether a session event makes the worker report.
pub open spec fn is_roster_trigger(kind: Seq<char>) -> bool {
    ||| kind == "turn_start"@
    ||| kind == "turn_end"@
    ||| kind == "bash_start"@
    ||| kind == "bash_end"@
    ||| kind == "compaction_start"@
    ||| kind == "compaction_end"@
    ||| kind == "auto_retry_start"@
    ||| kind == "auto_retry_end"@
    ||| kind == "tool_execution_start"@
    ||| kind == "tool_execution_end"@
    ||| kind == "message_end"@
    ||| kind == "session_action_update"@
    ||| kind == "session_info_changed"@
    ||| kind == "thinking_level_changed"@
}

/// Whether a session event makes the worker report.
pub fn roster_session_event_triggers(kind: &str) -> (r: bool)
    ensures
        r == is_roster_trigger(kind@),
{
    same_text(kind, "turn_start") || same_text(kind, "turn_end") || same_text(kind, "bash_start")
        || same_text(kind, "bash_end") || same_text(kind, "compaction_start") || same_text(
        kind,
        "compaction_end",
    ) || same_text(kind, "auto_retry_start") || same_text(kind, "auto_retry_end") || same_text(
        kind,
        "tool_execution_start",
    ) || same_text(kind, "tool_execution_end") || same_text(kind, "message_end") || same_text(
        kind,
        "session_action_update",
    ) || same_text(kind, "session_info_changed") || same_text(kind, "thinking_level_changed")
}

/// What a session event's payload says of itself: its type, and the type of the
/// event in it, where it holds one.
#[derive(Debug, PartialEq, Eq)]
pub struct PayloadTags {
    pub kind: String,
    pub event_kind: Option<String>,
}

/// Whether the payload of a session event makes the worker report: one that
/// tells of the session's end or replacement, or whose event is a trigger.
pub open spec fn tags_trigger(kind: Seq<char>, event_kind: Option<Seq<char>>) -> bool {
    ||| kind == "session_closed"@
    ||| kind == "session_replaced"@
    ||| event_kind matches Some(event_kind) && is_roster_trigger(event_kind)
}

/// Whether the payload of a session event makes the worker report.
pub fn payload_triggers_roster_flush(tags: &PayloadTags) -> (r: bool)
    ensures
        r == tags_trigger(tags.kind@, opt_text(tags.event_kind)),
{
    if same_text(tags.kind.as_str(), "session_closed") || same_text(
        tags.kind.as_str(),
        "session_replaced",
    ) {
        return true;
    }
    match &tags.event_kind {
        Some(event_kind) => roster_session_event_triggers(event_kind.as_str()),
        None => false,
    }
}

/// Whether a frame makes the worker report: a status line always does, a
/// session event by what its payload says of itself, and no other frame does. A
/// payload that could not be read does not.
pub open spec fn frame_triggers(frame: FrameView, tags: Option<PayloadTags>) -> bool {
    if frame.outbound_type == "session_status"@ {
        true
    } else if frame.outbound_type != "session_event"@ {
        false
    } else {
        match tags {
            Some(tags) => tags_trigger(tags.kind@, opt_text(tags.event_kind)),
            None => false,
        }
    }
}

/// Whether the payload of a frame is read at all: only that of a session event.
pub fn reads_payload(frame: &OutboundFrame) -> (r: bool)
    ensures
        r == (frame@.outbound_type == "session_event"@),
{
    same_text(frame.outbound_type.as_str(), "session_event")
}

/// Whether a frame makes the worker report, given what its payload says of
/// itself; none where the payload is not read or could not be.
pub fn frame_triggers_roster_flush(frame: &OutboundFrame, tags: &Option<PayloadTags>) -> (r: bool)
    ensures
        r == frame_triggers(frame@, *tags),
{
    if same_text(frame.outbound_type.as_str(), "session_status") {
        return true;
    }
    if !reads_payload(frame) {
        return false;
    }
    match tags {
        Some(tags) => payload_triggers_roster_flush(tags),
        None => false,
    }
}

/// The queue of reports: whether it has a consumer, and whether a report is
/// wanted.
#[derive(Debug, Clone, Copy, PartialEq, Eq, Structural)]
pub struct RosterPushQueue {
    pub enabled: bool,
    pub wanted: bool,
}

impl RosterPushQueue {
    /// The queue without a consumer.
    pub fn disabled() -> (r: RosterPushQueue)
        ensures
            r == (RosterPushQueue { enabled: false, wanted: false }),
    {
        RosterPushQueue { enabled: false, wanted: false }
    }

    /// The queue of a worker: without a consumer where reports are turned off,
    /// and where the worker has no token or no supervisor to report to.
    pub fn spawn(turned_off: bool, worker_token: &str, socket_path: &str) -> (r: RosterPushQueue)
        ensures
            r.enabled == (!turned_off && worker_token@.len() > 0 && socket_path@.len() > 0),
            !r.wanted,
    {
        if turned_off || is_empty_text(worker_token) || is_empty_text(socket_path) {
            RosterPushQueue::disabled()
        } else {
            RosterPushQueue { enabled: true, wanted: false }
        }
    }

    /// The queue once a report was asked for.
    pub open spec fn pushed(self) -> RosterPushQueue {
        RosterPushQueue { wanted: self.wanted || self.enabled, ..self }
    }

    /// Ask for a report.
    pub fn push(&mut self)
        ensures
            *final(self) == old(self).pushed(),
    {
        if self.enabled {
            self.wanted = true;
        }
    }

    /// Watch one frame, given what its payload says of itself.
    pub fn observe(&mut self, frame: &OutboundFrame, tags: &Option<PayloadTags>)
        ensures
            *final(self) == if frame_triggers(frame@, *tags) {
                old(self).pushed()
            } else {
                *old(self)
            },
    {
        if frame_triggers_roster_flush(frame, tags) {
            self.push();
        }
    }

    /// Take every request at once: whether a report is sent for them.
    pub fn drain(&mut self) -> (r: bool)
        ensures
            r == old(self).wanted,
            *final(self) == (RosterPushQueue { wanted: false, ..*old(self) }),
    {
        let wanted = self.wanted;
        self.wanted = false;
        wanted
    }
}

/// The queue after a number of requests.
pub open spec fn pushed_times(queue: RosterPushQueue, n: nat) -> RosterPushQueue
    decreases n,
{
    if n == 0 {
        queue
    } else {
        pushed_times(queue, (n - 1) as nat).pushed()
    }
}

/// A burst of requests makes one report: however many there were, one report is
/// wanted, and a queue without a consumer wants none.
pub proof fn law_bursts_make_one_report(queue: RosterPushQueue, n: nat)
    requires
        !queue.wanted,
    ensures
        pushed_times(queue, n).wanted == (queue.enabled && n > 0),
        pushed_times(queue, n).enabled == queue.enabled,
    decreases n,
{
    if n > 0 {
        law_bursts_make_one_report(queue, (n - 1) as nat);
    }
}

/// The report of a worker's activity.
pub open spec fn delta_json(worker_token: Seq<char>, summary: JsonView) -> JsonView {
    JsonView::object().field("type"@, JsonView::Str("worker_roster_delta"@)).field(
        "workerToken"@,
        JsonView::Str(worker_token),
    ).field("summary"@, summary)
}

/// The report of a worker's activity.
pub fn roster_delta(worker_token: &str, summary: Json) -> (r: Json)
    ensures
        r@ == delta_json(worker_token@, summary@),
{
    Json::object().field("type", Json::string("worker_roster_delta")).field(
        "workerToken",
        Json::string(worker_token),
    ).field("summary", summary)
}

} // verus!

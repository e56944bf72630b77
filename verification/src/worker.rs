//! What a worker holds of its session, the frames it sends, and the pump they
//! leave through.
use vstd::prelude::*;

use crate::agent_engine::ImageContent;
use crate::json::Json;
use crate::session_window::SessionFile;
use crate::text::{is_text, opt_text};

verus! {

/// One frame on its way to the supervisor and the clients.
#[derive(Debug, PartialEq, Eq)]
pub struct OutboundFrame {
    pub outbound_type: String,
    pub payload: Vec<u8>,
}

/// The mathematical frame behind an [`OutboundFrame`].
#[verifier::ext_equal]
pub struct FrameView {
    pub outbound_type: Seq<char>,
    pub payload: Seq<u8>,
}

impl View for OutboundFrame {
    type V = FrameView;

    open spec fn view(&self) -> FrameView {
        FrameView { outbound_type: self.outbound_type@, payload: self.payload@ }
    }
}

/// The frame of a session event.
pub open spec fn event_frame(payload: Seq<u8>) -> FrameView {
    FrameView { outbound_type: "session_event"@, payload }
}

impl OutboundFrame {
    /// The frame of a session event.
    pub fn session_event(payload: Vec<u8>) -> (r: OutboundFrame)
        ensures
            r@ == event_frame(payload@),
    {
        OutboundFrame { outbound_type: "session_event".to_owned(), payload }
    }

    /// The frame of a status line.
    pub fn session_status(payload: Vec<u8>) -> (r: OutboundFrame)
        ensures
            r@ == (FrameView { outbound_type: "session_status"@, payload: payload@ }),
    {
        OutboundFrame { outbound_type: "session_status".to_owned(), payload }
    }

    /// The frame of a side question's event.
    pub fn side_question_event(payload: Vec<u8>) -> (r: OutboundFrame)
        ensures
            r@ == (FrameView { outbound_type: "side_question_event"@, payload: payload@ }),
    {
        OutboundFrame { outbound_type: "side_question_event".to_owned(), payload }
    }
}

/// The frames sent so far, in order.
#[derive(Debug, PartialEq, Eq)]
pub struct EventPump {
    pub frames: Vec<OutboundFrame>,
}

/// The frames of a run, by value.
pub open spec fn frames_view(frames: Seq<OutboundFrame>) -> Seq<FrameView> {
    Seq::new(frames.len(), |i: int| frames[i]@)
}

impl View for EventPump {
    type V = Seq<FrameView>;

    open spec fn view(&self) -> Seq<FrameView> {
        frames_view(self.frames@)
    }
}

impl EventPump {
    /// A pump that has sent nothing.
    pub fn new() -> (r: EventPump)
        ensures
            r@ == Seq::<FrameView>::empty(),
    {
        let r = EventPump { frames: Vec::new() };
        assert(r@ =~= Seq::empty());
        r
    }

    /// Send one frame.
    pub fn send(&mut self, frame: OutboundFrame)
        ensures
            final(self)@ == old(self)@.push(frame@),
    {
        self.frames.push(frame);
        assert(self@ =~= old(self)@.push(frame@));
    }
}

/// An input that waits for its turn; a later input under the same key takes its
/// place.
#[derive(Debug, PartialEq, Eq)]
pub struct QueuedItem {
    pub message: String,
    pub custom_message: Option<Json>,
    pub admission_id: Option<String>,
    pub images: Vec<ImageContent>,
    pub queue_key: Option<String>,
}

/// A lane without the inputs under a key.
pub open spec fn without_key(items: Seq<QueuedItem>, key: Seq<char>) -> Seq<QueuedItem>
    decreases items.len(),
{
    if items.len() == 0 {
        Seq::empty()
    } else {
        let before = without_key(items.drop_last(), key);
        if opt_text(items.last().queue_key) == Some(key) {
            before
        } else {
            before.push(items.last())
        }
    }
}

/// Drop the inputs under a key from a lane; the others keep their order.
pub fn drop_key(items: &mut Vec<QueuedItem>, key: &str)
    ensures
        final(items)@ == without_key(old(items)@, key@),
{
    let ghost all = items@;
    let mut i: usize = 0;
    let ghost mut k: int = 0;
    assert(all.take(0) =~= Seq::empty());
    assert(items@ =~= without_key(all.take(0), key@) + all.skip(0));
    while i < items.len()
        invariant
            all == old(items)@,
            0 <= k <= all.len(),
            i == without_key(all.take(k), key@).len(),
            items@ == without_key(all.take(k), key@) + all.skip(k),
        decreases all.len() - k,
    {
        let ghost kept = without_key(all.take(k), key@);
        assert(k < all.len());
        assert(items@[i as int] == all[k]);
        assert(all.take(k + 1).drop_last() =~= all.take(k));
        assert(all.take(k + 1).last() == all[k]);
        if is_text(crate::text::as_opt_str(&items[i].queue_key), key) {
            let _ = items.remove(i);
            assert(items@ =~= kept + all.skip(k + 1));
        } else {
            i = i + 1;
            assert(items@ =~= kept.push(all[k]) + all.skip(k + 1));
        }
        proof {
            k = k + 1;
        }
    }
    assert(k == all.len());
    assert(all.take(k) =~= all);
    assert(items@ =~= without_key(all, key@));
}

/// How many inputs of a lane are under a key.
pub open spec fn count_key(items: Seq<QueuedItem>, key: Seq<char>) -> nat
    decreases items.len(),
{
    if items.len() == 0 {
        0
    } else {
        count_key(items.drop_last(), key) + if opt_text(items.last().queue_key) == Some(key) {
            1nat
        } else {
            0nat
        }
    }
}

/// Dropping a key leaves no input under it and every input under any other.
pub proof fn lemma_without_key(items: Seq<QueuedItem>, key: Seq<char>, other: Seq<char>)
    ensures
        count_key(without_key(items, key), key) == 0,
        other != key ==> count_key(without_key(items, key), other) == count_key(items, other),
    decreases items.len(),
{
    if items.len() > 0 {
        lemma_without_key(items.drop_last(), key, other);
        let before = without_key(items.drop_last(), key);
        assert(before.push(items.last()).drop_last() =~= before);
    }
}

/// What a worker holds of its session.
#[derive(Debug, PartialEq, Eq)]
pub struct SessionCore {
    pub created: bool,
    pub shutdown_requested: bool,
    pub busy: bool,
    pub compacting: bool,
    pub abort_requested: bool,
    pub retry_abort_requested: bool,
    pub queued_input_suspended: bool,
    /// Whether input waits for the next turn.
    pub pending_next_turn: bool,
    pub steering: Vec<QueuedItem>,
    pub follow_up: Vec<QueuedItem>,
    pub active_session_id: String,
    pub runtime_kind: String,
    pub cwd: String,
    pub store: Option<SessionFile>,
}

} // verus!

//! Coalescing of a turn's streamed updates.
//!
//! A streamed message update is parked in a single slot, where a newer one
//! replaces it. The slot is sent on by a periodic flush, or ahead of the next
//! frame that is not an update, so the frames leave in the order they came.
use vstd::prelude::*;

use crate::worker::{event_frame, EventPump, FrameView, OutboundFrame};

verus! {

/// How often a parked update is flushed, in milliseconds.
pub const UPDATE_FLUSH_INTERVAL_MS: u64 = 50;

/// The single slot of a turn's updates.
#[derive(Debug, PartialEq, Eq)]
pub struct TurnStreamCoalescer {
    pending: Option<Vec<u8>>,
    closed: bool,
}

/// The mathematical state behind a [`TurnStreamCoalescer`].
#[verifier::ext_equal]
pub struct SlotView {
    pub pending: Option<Seq<u8>>,
    pub closed: bool,
}

impl View for TurnStreamCoalescer {
    type V = SlotView;

    closed spec fn view(&self) -> SlotView {
        SlotView {
            pending: match self.pending {
                Some(payload) => Some(payload@),
                None => None,
            },
            closed: self.closed,
        }
    }
}

/// The frames of a run of payloads.
pub open spec fn event_frames(payloads: Seq<Seq<u8>>) -> Seq<FrameView> {
    Seq::new(payloads.len(), |i: int| event_frame(payloads[i]))
}

/// The parked payload as a run of none or one.
pub open spec fn parked(pending: Option<Seq<u8>>) -> Seq<Seq<u8>> {
    match pending {
        Some(payload) => seq![payload],
        None => Seq::empty(),
    }
}

/// The payloads of a run.
pub open spec fn payloads_view(payloads: Seq<Vec<u8>>) -> Seq<Seq<u8>> {
    Seq::new(payloads.len(), |i: int| payloads[i]@)
}

fn copy_bytes(bytes: &Vec<u8>) -> (r: Vec<u8>)
    ensures
        r@ == bytes@,
{
    let mut out: Vec<u8> = Vec::new();
    let mut i: usize = 0;
    while i < bytes.len()
        invariant
            i <= bytes@.len(),
            out@ == bytes@.take(i as int),
        decreases bytes@.len() - i,
    {
        out.push(bytes[i]);
        i = i + 1;
        assert(out@ =~= bytes@.take(i as int));
    }
    assert(out@ =~= bytes@);
    out
}

impl TurnStreamCoalescer {
    /// An open, empty slot.
    pub fn new() -> (r: TurnStreamCoalescer)
        ensures
            r@ == (SlotView { pending: None, closed: false }),
    {
        TurnStreamCoalescer { pending: None, closed: false }
    }

    /// Park an update in place of the parked one. A closed slot takes none and
    /// says so.
    pub fn park_update(&mut self, payload: Vec<u8>) -> (r: bool)
        ensures
            r == !old(self)@.closed,
            final(self)@ == if old(self)@.closed {
                old(self)@
            } else {
                SlotView { pending: Some(payload@), closed: false }
            },
            slot_step(old(self)@, Seq::empty(), StreamOp::Park(payload@)) == (
                final(self)@,
                Seq::<Seq<u8>>::empty(),
            ),
    {
        if self.closed {
            return false;
        }
        self.pending = Some(payload);
        true
    }

    fn send_parked(&mut self, events: &mut EventPump)
        ensures
            final(self)@ == (SlotView { pending: None, ..old(self)@ }),
            final(events)@ == old(events)@ + event_frames(parked(old(self)@.pending)),
    {
        let pending = self.pending.take();
        match pending {
            Some(payload) => {
                events.send(OutboundFrame::session_event(payload));
                assert(events@ =~= old(events)@ + event_frames(parked(old(self)@.pending)));
            },
            None => {
                assert(events@ =~= old(events)@ + event_frames(parked(old(self)@.pending)));
            },
        }
    }

    /// Send frames at once, the parked update ahead of them.
    pub fn send_direct(&mut self, payloads: &Vec<Vec<u8>>, events: &mut EventPump)
        ensures
            final(self)@ == (SlotView { pending: None, ..old(self)@ }),
            final(events)@ == old(events)@ + event_frames(
                parked(old(self)@.pending) + payloads_view(payloads@),
            ),
            ({
                let (slot, sent) = slot_step(
                    old(self)@,
                    Seq::empty(),
                    StreamOp::Direct(payloads_view(payloads@)),
                );
                final(self)@ == slot && final(events)@ == old(events)@ + event_frames(sent)
            }),
    {
        self.send_parked(events);
        let ghost start = events@;
        let ghost all = payloads_view(payloads@);
        let mut i: usize = 0;
        assert(start + event_frames(all.take(0)) =~= start);
        while i < payloads.len()
            invariant
                i <= payloads@.len(),
                all == payloads_view(payloads@),
                events@ == start + event_frames(all.take(i as int)),
                self@ == (SlotView { pending: None, ..old(self)@ }),
            decreases payloads@.len() - i,
        {
            events.send(OutboundFrame::session_event(copy_bytes(&payloads[i])));
            i = i + 1;
            assert(events@ =~= start + event_frames(all.take(i as int)));
        }
        assert(all.take(i as int) =~= all);
        assert(events@ =~= old(events)@ + event_frames(parked(old(self)@.pending) + all));
        assert(Seq::empty() + parked(old(self)@.pending) + all =~= parked(old(self)@.pending)
            + all);
    }

    /// Send the parked update, if there is one. A closed slot sends nothing and
    /// says that the flushing should stop.
    pub fn flush_pending(&mut self, events: &mut EventPump) -> (r: bool)
        ensures
            r == !old(self)@.closed,
            final(self)@ == if old(self)@.closed {
                old(self)@
            } else {
                SlotView { pending: None, closed: false }
            },
            final(events)@ == if old(self)@.closed {
                old(events)@
            } else {
                old(events)@ + event_frames(parked(old(self)@.pending))
            },
            ({
                let (slot, sent) = slot_step(old(self)@, Seq::empty(), StreamOp::Flush);
                final(self)@ == slot && final(events)@ == old(events)@ + event_frames(sent)
            }),
    {
        if self.closed {
            assert(events@ =~= events@ + event_frames(Seq::empty()));
            return false;
        }
        self.send_parked(events);
        assert(Seq::empty() + parked(old(self)@.pending) =~= parked(old(self)@.pending));
        true
    }

    /// End the turn: what is parked is dropped, and nothing is parked or flushed
    /// from now on.
    pub fn close(&mut self)
        ensures
            final(self)@ == (SlotView { pending: None, closed: true }),
            slot_step(old(self)@, Seq::empty(), StreamOp::Close) == (
                final(self)@,
                Seq::<Seq<u8>>::empty(),
            ),
    {
        self.closed = true;
        self.pending = None;
    }
}

/// One use of a slot.
pub enum StreamOp {
    Park(Seq<u8>),
    Direct(Seq<Seq<u8>>),
    Flush,
    Close,
}

/// The slot after one more use, and the payloads sent by then.
pub open spec fn slot_step(slot: SlotView, sent: Seq<Seq<u8>>, op: StreamOp) -> (
    SlotView,
    Seq<Seq<u8>>,
) {
    match op {
        StreamOp::Park(payload) => if slot.closed {
            (slot, sent)
        } else {
            (SlotView { pending: Some(payload), closed: false }, sent)
        },
        StreamOp::Direct(payloads) => (
            SlotView { pending: None, ..slot },
            sent + parked(slot.pending) + payloads,
        ),
        StreamOp::Flush => if slot.closed {
            (slot, sent)
        } else {
            (SlotView { pending: None, ..slot }, sent + parked(slot.pending))
        },
        StreamOp::Close => (SlotView { pending: None, closed: true }, sent),
    }
}

/// The slot and the payloads sent after a run of uses of an open, empty slot.
pub open spec fn run_ops(ops: Seq<StreamOp>) -> (SlotView, Seq<Seq<u8>>)
    decreases ops.len(),
{
    if ops.len() == 0 {
        (SlotView { pending: None, closed: false }, Seq::empty())
    } else {
        let (slot, sent) = run_ops(ops.drop_last());
        slot_step(slot, sent, ops.last())
    }
}

/// The payloads handed to a slot, in order.
pub open spec fn handed(ops: Seq<StreamOp>) -> Seq<Seq<u8>>
    decreases ops.len(),
{
    if ops.len() == 0 {
        Seq::empty()
    } else {
        let before = handed(ops.drop_last());
        match ops.last() {
            StreamOp::Park(payload) => before.push(payload),
            StreamOp::Direct(payloads) => before + payloads,
            _ => before,
        }
    }
}

/// The payloads that were to be sent at once, in order.
pub open spec fn direct(ops: Seq<StreamOp>) -> Seq<Seq<u8>>
    decreases ops.len(),
{
    if ops.len() == 0 {
        Seq::empty()
    } else {
        let before = direct(ops.drop_last());
        match ops.last() {
            StreamOp::Direct(payloads) => before + payloads,
            _ => before,
        }
    }
}

/// Whether `part` comes out of `whole` by leaving payloads out.
pub open spec fn is_part(part: Seq<Seq<u8>>, whole: Seq<Seq<u8>>) -> bool
    decreases whole.len(),
{
    if part.len() == 0 {
        true
    } else if whole.len() == 0 {
        false
    } else if part.last() == whole.last() {
        is_part(part.drop_last(), whole.drop_last())
    } else {
        is_part(part, whole.drop_last())
    }
}

proof fn lemma_part_shorter(part: Seq<Seq<u8>>, whole: Seq<Seq<u8>>)
    requires
        is_part(part, whole),
        part.len() > 0,
    ensures
        is_part(part.drop_last(), whole),
    decreases whole.len(),
{
    let shorter = part.drop_last();
    if shorter.len() > 0 && whole.len() > 0 {
        if part.last() == whole.last() {
            if shorter.last() == whole.last() {
                lemma_part_shorter(shorter, whole.drop_last());
            }
        } else {
            lemma_part_shorter(part, whole.drop_last());
            if shorter.last() == whole.last() {
                lemma_part_shorter(shorter, whole.drop_last());
            }
        }
    }
}

proof fn lemma_part_of_longer(part: Seq<Seq<u8>>, whole: Seq<Seq<u8>>, payload: Seq<u8>)
    requires
        is_part(part, whole),
    ensures
        is_part(part, whole.push(payload)),
        is_part(part.push(payload), whole.push(payload)),
{
    assert(whole.push(payload).drop_last() =~= whole);
    assert(part.push(payload).drop_last() =~= part);
    if part.len() > 0 && part.last() == payload {
        lemma_part_shorter(part, whole);
    }
}

proof fn lemma_part_append(part: Seq<Seq<u8>>, whole: Seq<Seq<u8>>, more: Seq<Seq<u8>>)
    requires
        is_part(part, whole),
    ensures
        is_part(part + more, whole + more),
    decreases more.len(),
{
    if more.len() == 0 {
        assert(part + more =~= part);
        assert(whole + more =~= whole);
    } else {
        lemma_part_append(part, whole, more.drop_last());
        lemma_part_of_longer(part + more.drop_last(), whole + more.drop_last(), more.last());
        assert((part + more.drop_last()).push(more.last()) =~= part + more);
        assert((whole + more.drop_last()).push(more.last()) =~= whole + more);
    }
}

proof fn lemma_part_weaken(part: Seq<Seq<u8>>, whole: Seq<Seq<u8>>, more: Seq<Seq<u8>>)
    requires
        is_part(part, whole),
    ensures
        is_part(part, whole + more),
    decreases more.len(),
{
    if more.len() == 0 {
        assert(whole + more =~= whole);
    } else {
        lemma_part_weaken(part, whole, more.drop_last());
        lemma_part_of_longer(part, whole + more.drop_last(), more.last());
        assert((whole + more.drop_last()).push(more.last()) =~= whole + more);
    }
}

proof fn lemma_sent_and_parked(ops: Seq<StreamOp>)
    ensures
        is_part(run_ops(ops).1 + parked(run_ops(ops).0.pending), handed(ops)),
        run_ops(ops).0.closed ==> run_ops(ops).0.pending is None,
    decreases ops.len(),
{
    if ops.len() > 0 {
        let before = ops.drop_last();
        lemma_sent_and_parked(before);
        let (slot, sent) = run_ops(before);
        let held = sent + parked(slot.pending);
        match ops.last() {
            StreamOp::Park(payload) => {
                if slot.closed {
                    lemma_part_of_longer(held, handed(before), payload);
                } else {
                    if slot.pending is Some {
                        lemma_part_shorter(held, handed(before));
                        assert(held.drop_last() =~= sent);
                    } else {
                        assert(held =~= sent);
                    }
                    lemma_part_of_longer(sent, handed(before), payload);
                    assert(sent + parked(Some(payload)) =~= sent.push(payload));
                }
            },
            StreamOp::Direct(payloads) => {
                lemma_part_append(held, handed(before), payloads);
                assert(run_ops(ops).1 + parked(None) =~= held + payloads);
            },
            StreamOp::Flush => {
                if !slot.closed {
                    assert(held + parked(None) =~= held);
                }
            },
            StreamOp::Close => {
                if slot.pending is Some {
                    lemma_part_shorter(held, handed(before));
                    assert(held.drop_last() =~= sent);
                } else {
                    assert(held =~= sent);
                }
                assert(sent + parked(None) =~= sent);
            },
        }
    } else {
        assert(run_ops(ops).1 + parked(None) =~= Seq::empty());
    }
}

/// However a slot is used, what is sent comes in the order it was handed over,
/// with updates left out and nothing added or moved.
pub proof fn law_stream_keeps_order(ops: Seq<StreamOp>)
    ensures
        is_part(run_ops(ops).1, handed(ops)),
{
    lemma_sent_and_parked(ops);
    let (slot, sent) = run_ops(ops);
    let held = sent + parked(slot.pending);
    if slot.pending is Some {
        lemma_part_shorter(held, handed(ops));
        assert(held.drop_last() =~= sent);
    } else {
        assert(held =~= sent);
    }
}

/// However a slot is used, every frame that was to be sent at once is sent, in
/// order.
pub proof fn law_direct_frames_are_never_lost(ops: Seq<StreamOp>)
    ensures
        is_part(direct(ops), run_ops(ops).1),
    decreases ops.len(),
{
    if ops.len() > 0 {
        let before = ops.drop_last();
        law_direct_frames_are_never_lost(before);
        let (slot, sent) = run_ops(before);
        match ops.last() {
            StreamOp::Direct(payloads) => {
                lemma_part_weaken(direct(before), sent, parked(slot.pending));
                lemma_part_append(direct(before), sent + parked(slot.pending), payloads);
            },
            StreamOp::Flush => {
                lemma_part_weaken(direct(before), sent, parked(slot.pending));
            },
            _ => {},
        }
    }
}

/// A frame sent at once is preceded by the newest parked update: of two updates
/// parked in a row only the second is sent, ahead of the frame.
pub proof fn law_the_newest_update_precedes_the_frame(
    ops: Seq<StreamOp>,
    older: Seq<u8>,
    newer: Seq<u8>,
    frames: Seq<Seq<u8>>,
)
    requires
        !run_ops(ops).0.closed,
    ensures
        run_ops(
            ops.push(StreamOp::Park(older)).push(StreamOp::Park(newer)).push(
                StreamOp::Direct(frames),
            ),
        ).1 == run_ops(ops).1.push(newer) + frames,
{
    let one = ops.push(StreamOp::Park(older));
    let two = one.push(StreamOp::Park(newer));
    let three = two.push(StreamOp::Direct(frames));
    assert(one.drop_last() =~= ops);
    assert(two.drop_last() =~= one);
    assert(three.drop_last() =~= two);
    reveal_with_fuel(run_ops, 4);
    assert(run_ops(three).1 =~= run_ops(ops).1.push(newer) + frames);
}

/// Once a slot is closed, no update is sent any more: only frames sent at once
/// still leave.
pub proof fn law_closed_slots_send_no_updates(ops: Seq<StreamOp>, op: StreamOp)
    requires
        run_ops(ops).0.closed,
    ensures
        run_ops(ops.push(op)).0.closed,
        run_ops(ops.push(op)).1 == match op {
            StreamOp::Direct(payloads) => run_ops(ops).1 + payloads,
            _ => run_ops(ops).1,
        },
{
    lemma_sent_and_parked(ops);
    assert(ops.push(op).drop_last() =~= ops);
    assert(run_ops(ops).1 + parked(None) =~= run_ops(ops).1);
}

/// The newest update is never lost while a slot is open: the next flush sends it,
/// and a flush with nothing parked sends nothing.
pub proof fn law_the_newest_update_is_flushed(ops: Seq<StreamOp>, newest: Seq<u8>)
    requires
        !run_ops(ops).0.closed,
    ensures
        run_ops(ops.push(StreamOp::Park(newest)).push(StreamOp::Flush)).1 == run_ops(ops).1.push(
            newest,
        ),
        run_ops(
            ops.push(StreamOp::Park(newest)).push(StreamOp::Flush).push(StreamOp::Flush),
        ).1 == run_ops(ops).1.push(newest),
{
    let one = ops.push(StreamOp::Park(newest));
    let two = one.push(StreamOp::Flush);
    let three = two.push(StreamOp::Flush);
    assert(one.drop_last() =~= ops);
    assert(two.drop_last() =~= one);
    assert(three.drop_last() =~= two);
    reveal_with_fuel(run_ops, 4);
    assert(run_ops(two).1 =~= run_ops(ops).1.push(newest));
    assert(run_ops(three).1 =~= run_ops(two).1);
}

} // verus!

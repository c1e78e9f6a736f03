//! What holds of a transmit ring over many steps.

use crate::dma::tx::{
    lemma_reclaim_keeps_wf, lemma_send_keeps_wf, lemma_write_back_keeps_wf, TxRingView,
};
use crate::dma::{PacketId, TxError};
use crate::ptp::Timestamp;
use vstd::prelude::*;

verus! {

/// One thing that happens to a transmit ring without any frame being
/// reclaimed.
pub enum TxStep {
    /// Software calls `send`.
    Send {
        /// The tag of the frame.
        packet_id: Option<PacketId>,
        /// The bytes of the frame.
        frame: Seq<u8>,
    },
    /// The engine writes a descriptor back.
    WriteBack {
        /// The slot that it writes to.
        slot: int,
        /// The four words that it writes.
        words: Seq<u32>,
    },
}

/// The step can be taken on the ring: a frame fits a buffer, a write-back has
/// four words.
pub open spec fn step_fits(ring: TxRingView, step: TxStep) -> bool {
    match step {
        TxStep::Send { packet_id, frame } => frame.len() <= ring.buffer_size(),
        TxStep::WriteBack { slot, words } => words.len() == 4,
    }
}

/// Every step can be taken.
pub open spec fn steps_fit(ring: TxRingView, steps: Seq<TxStep>) -> bool {
    forall|i: int| 0 <= i < steps.len() ==> step_fits(ring, #[trigger] steps[i])
}

/// The ring after one step.
pub open spec fn after_step(ring: TxRingView, step: TxStep) -> TxRingView {
    match step {
        TxStep::Send { packet_id, frame } => ring.after_send(packet_id, frame),
        TxStep::WriteBack { slot, words } => ring.after_write_back(slot, words),
    }
}

/// The ring after all the steps, in their order.
pub open spec fn after_steps(ring: TxRingView, steps: Seq<TxStep>) -> TxRingView
    decreases steps.len(),
{
    if steps.len() == 0 {
        ring
    } else {
        after_step(after_steps(ring, steps.drop_last()), steps.last())
    }
}

/// How many of the steps are calls of `send`.
pub open spec fn count_sends(steps: Seq<TxStep>) -> nat
    decreases steps.len(),
{
    if steps.len() == 0 {
        0
    } else {
        count_sends(steps.drop_last()) + if steps.last() is Send {
            1nat
        } else {
            0nat
        }
    }
}

/// The smaller of two numbers.
pub open spec fn least(a: int, b: int) -> int {
    if a <= b {
        a
    } else {
        b
    }
}

/// While nothing is reclaimed, each `send` adds one frame in flight until
/// the ring is full, and the engine's write-backs add and remove none. The
/// ring stays sound, keeps its size, and the oldest frame stays the oldest.
pub proof fn lemma_sends_fill_the_ring(ring: TxRingView, steps: Seq<TxStep>)
    requires
        ring.wf(),
        steps_fit(ring, steps),
    ensures
        after_steps(ring, steps).wf(),
        after_steps(ring, steps).capacity() == ring.capacity(),
        after_steps(ring, steps).buffer_size() == ring.buffer_size(),
        after_steps(ring, steps).next_reclaim == ring.next_reclaim,
        after_steps(ring, steps).in_flight == least(
            ring.in_flight + count_sends(steps),
            ring.capacity(),
        ),
    decreases steps.len(),
{
    if steps.len() > 0 {
        let before = after_steps(ring, steps.drop_last());
        assert(steps_fit(ring, steps.drop_last())) by {
            assert forall|i: int| 0 <= i < steps.drop_last().len() implies step_fits(
                ring,
                #[trigger] steps.drop_last()[i],
            ) by {
                assert(steps.drop_last()[i] == steps[i]);
            }
        }
        lemma_sends_fill_the_ring(ring, steps.drop_last());
        assert(step_fits(ring, steps[steps.len() - 1]));
        match steps.last() {
            TxStep::Send { packet_id, frame } => {
                lemma_send_keeps_wf(before, packet_id, frame);
            },
            TxStep::WriteBack { slot, words } => {
                lemma_write_back_keeps_wf(before, slot, words);
            },
        }
    }
}

/// A ring that has taken as many frames as it has slots takes no more until
/// one is reclaimed: whatever the engine has done in between, the next `send`
/// would block, and it leaves the ring as it is, every byte of every buffer
/// included.
pub proof fn lemma_full_ring_blocks(
    ring: TxRingView,
    steps: Seq<TxStep>,
    packet_id: Option<PacketId>,
    frame: Seq<u8>,
)
    requires
        ring.wf(),
        steps_fit(ring, steps),
        ring.in_flight + count_sends(steps) >= ring.capacity(),
    ensures
        after_steps(ring, steps).send_result() == Err::<(), TxError>(TxError::WouldBlock),
        after_steps(ring, steps).after_send(packet_id, frame) == after_steps(ring, steps),
        after_steps(ring, steps).after_send(packet_id, frame).buffers == after_steps(
            ring,
            steps,
        ).buffers,
{
    lemma_sends_fill_the_ring(ring, steps);
}

/// Frames come back in the order in which they went out. Of two frames in
/// flight only the older can be reclaimed: while the engine owns its
/// descriptor nothing comes back, whether or not the engine is done with the
/// younger; and once the older has come back, the younger is the oldest.
pub proof fn lemma_reclaim_oldest_first(ring: TxRingView, packet_id: Option<PacketId>)
    requires
        ring.wf(),
        ring.in_flight >= 2,
    ensures
        ring.pending()[0] == ring.next_reclaim,
        ring.descriptors[ring.pending()[0]].is_owned() ==> {
            &&& ring.reclaim_result(packet_id) == Err::<Option<Timestamp>, TxError>(
                TxError::WouldBlock,
            )
            &&& ring.after_reclaim() == ring
        },
        !ring.descriptors[ring.pending()[0]].is_owned() ==> {
            &&& ring.reclaim_result(packet_id) == ring.descriptors[ring.pending()[0]].completion(
                packet_id,
                ring.mode,
            )
            &&& ring.after_reclaim().pending() == ring.pending().drop_first()
            &&& ring.after_reclaim().pending()[0] == ring.pending()[1]
            &&& ring.after_reclaim().wf()
        },
{
    lemma_reclaim_keeps_wf(ring);
}

/// A frame that has been submitted is the youngest in flight, behind every
/// frame submitted before it.
pub proof fn lemma_send_joins_at_the_back(
    ring: TxRingView,
    packet_id: Option<PacketId>,
    frame: Seq<u8>,
)
    requires
        ring.wf(),
        !ring.is_full(),
        frame.len() <= ring.buffer_size(),
    ensures
        ring.after_send(packet_id, frame).pending() == ring.pending().push(ring.next_submit),
        ring.after_send(packet_id, frame).pending().last() == ring.next_submit,
        forall|k: int|
            0 <= k < ring.in_flight ==> ring.after_send(packet_id, frame).pending()[k]
                == ring.pending()[k],
{
    lemma_send_keeps_wf(ring, packet_id, frame);
}

/// Once a frame has been reclaimed from a full ring, the next `send` goes
/// through.
pub proof fn lemma_reclaim_frees_a_slot(ring: TxRingView)
    requires
        ring.wf(),
        ring.is_full(),
        !ring.reclaim_blocked(),
    ensures
        ring.after_reclaim().wf(),
        ring.after_reclaim().send_result() == Ok::<(), TxError>(()),
{
    lemma_reclaim_keeps_wf(ring);
}

} // verus!

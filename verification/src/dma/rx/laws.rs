//! What holds of a receive descriptor and a receive ring over many steps.

use crate::dma::cursor::next_slot;
use crate::dma::rx::descriptor::{status_whole_frame, RxDescriptorView};
use crate::dma::rx::{lemma_handed_over_is_owned, lemma_recv_keeps_wf, RxRingView};
use crate::dma::{PacketId, RxError};
use crate::ptp::TimestampMode;
use vstd::prelude::*;

verus! {

/// A dropped frame's descriptor is the engine's again at once: after an
/// attempt that ends in `Truncated`, the ownership bit is set.
pub proof fn lemma_truncated_is_rearmed(
    desc: RxDescriptorView,
    packet_id: Option<PacketId>,
    buffer: u32,
    mode: TimestampMode,
)
    requires
        desc.wf(),
    ensures
        desc.take_result() == Err::<(), RxError>(RxError::Truncated) ==> desc.after_take(
            packet_id,
            buffer,
            mode,
        ).is_owned(),
        desc.after_take(packet_id, buffer, mode).wf(),
{
    lemma_handed_over_is_owned(desc, buffer);
}

/// A timestamp is kept exactly when a frame was taken and its descriptor
/// offers one: timestamps are in use, the descriptor is a last segment and,
/// where the engine has a bit for it, that bit is set. None is kept for a
/// frame in several segments, a context descriptor or an error, nor while
/// the engine owns the descriptor.
pub proof fn lemma_timestamp_kept_iff_offered(
    desc: RxDescriptorView,
    packet_id: Option<PacketId>,
    buffer: u32,
    mode: TimestampMode,
)
    requires
        desc.wf(),
    ensures
        desc.after_take(packet_id, buffer, mode).timestamp is Some <==> {
            &&& desc.take_result() is Ok
            &&& desc.timestamp_present(mode)
        },
        desc.is_owned() || !status_whole_frame(desc.status()) ==> desc.after_take(
            packet_id,
            buffer,
            mode,
        ).timestamp is None,
        mode == TimestampMode::Disabled ==> desc.after_take(packet_id, buffer, mode).timestamp
            is None,
{
}

/// The ring after one call of `recv_next` for each of the tags, in their
/// order.
pub open spec fn after_recvs(ring: RxRingView, tags: Seq<Option<PacketId>>) -> RxRingView
    decreases tags.len(),
{
    if tags.len() == 0 {
        ring
    } else {
        after_recvs(ring, tags.drop_last()).after_recv(tags.last())
    }
}

/// While the engine owns the descriptor under the cursor, `recv_next` can be
/// called any number of times: every call would block, and the ring after all
/// of them is the ring before the first.
pub proof fn lemma_blocked_recv_repeats(ring: RxRingView, tags: Seq<Option<PacketId>>)
    requires
        ring.wf(),
        ring.descriptors[ring.next].is_owned(),
    ensures
        after_recvs(ring, tags) == ring,
        forall|i: int|
            0 <= i <= tags.len() ==> (#[trigger] after_recvs(ring, tags.take(i))).recv_result()
                == Err::<(), RxError>(RxError::WouldBlock),
{
    lemma_blocked_recvs_change_nothing(ring, tags);
    assert forall|i: int| 0 <= i <= tags.len() implies (#[trigger] after_recvs(
        ring,
        tags.take(i),
    )).recv_result() == Err::<(), RxError>(RxError::WouldBlock) by {
        lemma_blocked_recvs_change_nothing(ring, tags.take(i));
    }
}

/// The ring after any number of calls that would block is the ring before
/// them.
proof fn lemma_blocked_recvs_change_nothing(ring: RxRingView, tags: Seq<Option<PacketId>>)
    requires
        ring.descriptors[ring.next].is_owned(),
    ensures
        after_recvs(ring, tags) == ring,
    decreases tags.len(),
{
    if tags.len() > 0 {
        lemma_blocked_recvs_change_nothing(ring, tags.drop_last());
    }
}

/// Frames are taken in ring order. What `recv_next` does is decided by the
/// descriptor under the cursor alone: while the engine owns it nothing is
/// taken, whatever any other slot holds; and once it is done with, the cursor
/// stands one slot on, and no other slot has been taken from.
pub proof fn lemma_recv_in_ring_order(ring: RxRingView, packet_id: Option<PacketId>, other: int)
    requires
        ring.wf(),
        0 <= other < ring.capacity(),
        other != ring.next,
    ensures
        ring.after_recv(packet_id).wf(),
        ring.descriptors[ring.next].is_owned() ==> {
            &&& ring.recv_result() == Err::<(), RxError>(RxError::WouldBlock)
            &&& ring.after_recv(packet_id) == ring
        },
        !ring.descriptors[ring.next].is_owned() ==> {
            &&& ring.after_recv(packet_id).next == next_slot(ring.next, ring.capacity())
            &&& ring.after_recv(packet_id).descriptors[other] == if ring.held == Some(other) {
                ring.rearmed(other)
            } else {
                ring.descriptors[other]
            }
            &&& ring.after_recv(packet_id).buffers == ring.buffers
        },
{
    lemma_recv_keeps_wf(ring, packet_id);
}

} // verus!

//! The transmit side: descriptors that the engine empties onto the wire.

use crate::dma::buffer::{overwritten, Buffer, BufferView, MAX_FRAME_LENGTH};
use crate::dma::cursor::{
    advance, buffer_views, check_parts, distance, init_error, next_slot, slot_after, uniform,
};
use crate::dma::fence::Barrier;
use crate::dma::tx::descriptor::{
    status_owned, status_submitted, TxDescriptor, TxDescriptorView,
};
use crate::dma::{InitError, PacketId, TxError};
use crate::ptp::{Timestamp, TimestampMode};
use vstd::prelude::*;

pub mod descriptor;
pub mod laws;

verus! {

/// The fewest slots that a transmit ring can have.
pub const TX_MIN_SLOTS: usize = 1;

/// A transmit ring as a value.
pub struct TxRingView {
    /// The descriptors, slot by slot.
    pub descriptors: Seq<TxDescriptorView>,
    /// The buffers, slot by slot.
    pub buffers: Seq<BufferView>,
    /// The slot that takes the next frame.
    pub next_submit: int,
    /// The slot whose frame is the oldest not yet reclaimed.
    pub next_reclaim: int,
    /// How many frames were submitted and not yet reclaimed.
    pub in_flight: int,
    /// How the engine marks a timestamp.
    pub mode: TimestampMode,
}

impl TxRingView {
    /// The number of slots.
    pub open spec fn capacity(self) -> int {
        self.descriptors.len() as int
    }

    /// The size of every buffer.
    pub open spec fn buffer_size(self) -> nat {
        self.buffers[0].data.len()
    }

    /// Every slot holds a frame that was not yet reclaimed.
    pub open spec fn is_full(self) -> bool {
        self.in_flight == self.capacity()
    }

    /// The slot lies outside the run of slots that hold a frame not yet
    /// reclaimed.
    pub open spec fn is_free(self, slot: int) -> bool {
        distance(self.next_reclaim, slot, self.capacity()) >= self.in_flight
    }

    /// The ring is sound: as many buffers as descriptors and at least one,
    /// buffers of one size, each descriptor sound, the cursors inside the
    /// ring and as far apart as there are frames in flight, and every free
    /// slot in software's hands.
    pub open spec fn wf(self) -> bool {
        &&& self.descriptors.len() == self.buffers.len()
        &&& self.capacity() >= TX_MIN_SLOTS
        &&& uniform(self.buffers)
        &&& 0 <= self.next_reclaim < self.capacity()
        &&& 0 <= self.in_flight <= self.capacity()
        &&& self.next_submit == slot_after(self.next_reclaim, self.in_flight, self.capacity())
        &&& forall|i: int| 0 <= i < self.capacity() ==> (#[trigger] self.descriptors[i]).wf()
        &&& forall|i: int|
            0 <= i < self.capacity() && self.is_free(i) ==> !(#[trigger] self.descriptors[i])
                .is_owned()
    }

    /// The slots that hold a frame not yet reclaimed, oldest first.
    pub open spec fn pending(self) -> Seq<int> {
        Seq::new(
            self.in_flight as nat,
            |k: int| slot_after(self.next_reclaim, k, self.capacity()),
        )
    }

    /// What `send` returns: it would block exactly when the ring is full.
    pub open spec fn send_result(self) -> Result<(), TxError> {
        if self.is_full() {
            Err(TxError::WouldBlock)
        } else {
            Ok(())
        }
    }

    /// The ring after `send`: untouched when full; else `frame` at the start
    /// of the next slot's buffer, that slot's descriptor handed to the engine
    /// under the tag `packet_id`, and the submit cursor one slot on.
    pub open spec fn after_send(self, packet_id: Option<PacketId>, frame: Seq<u8>) -> TxRingView {
        if self.is_full() {
            self
        } else {
            let slot = self.next_submit;
            TxRingView {
                descriptors: self.descriptors.update(
                    slot,
                    self.descriptors[slot].submitted(
                        self.buffers[slot].address,
                        frame.len() as u32,
                        packet_id,
                        self.mode,
                    ),
                ),
                buffers: self.buffers.update(
                    slot,
                    BufferView {
                        address: self.buffers[slot].address,
                        data: overwritten(self.buffers[slot].data, frame),
                    },
                ),
                next_submit: next_slot(slot, self.capacity()),
                in_flight: self.in_flight + 1,
                ..self
            }
        }
    }

    /// Nothing can be reclaimed now: no frame is in flight, or the engine
    /// still owns the oldest.
    pub open spec fn reclaim_blocked(self) -> bool {
        self.in_flight == 0 || self.descriptors[self.next_reclaim].is_owned()
    }

    /// What `reclaim_next` returns: it would block when nothing can be
    /// reclaimed; else it is what the oldest frame's descriptor says to a
    /// caller that asks for the frame tagged `packet_id`.
    pub open spec fn reclaim_result(self, packet_id: Option<PacketId>) -> Result<
        Option<Timestamp>,
        TxError,
    > {
        if self.reclaim_blocked() {
            Err(TxError::WouldBlock)
        } else {
            self.descriptors[self.next_reclaim].completion(packet_id, self.mode)
        }
    }

    /// The ring after `reclaim_next`: untouched when nothing can be
    /// reclaimed; else the oldest frame's descriptor completed, the reclaim
    /// cursor one slot on, and one frame fewer in flight.
    pub open spec fn after_reclaim(self) -> TxRingView {
        if self.reclaim_blocked() {
            self
        } else {
            let slot = self.next_reclaim;
            TxRingView {
                descriptors: self.descriptors.update(
                    slot,
                    self.descriptors[slot].completed(self.mode),
                ),
                next_reclaim: next_slot(slot, self.capacity()),
                in_flight: self.in_flight - 1,
                ..self
            }
        }
    }

    /// The engine takes a write-back to `slot`: the slot exists and the
    /// engine owns its descriptor.
    pub open spec fn accepts_write_back(self, slot: int) -> bool {
        0 <= slot < self.capacity() && self.descriptors[slot].is_owned()
    }

    /// The ring after the engine wrote `words` back to `slot`.
    pub open spec fn after_write_back(self, slot: int, words: Seq<u32>) -> TxRingView {
        if self.accepts_write_back(slot) {
            TxRingView {
                descriptors: self.descriptors.update(
                    slot,
                    TxDescriptorView { words, ..self.descriptors[slot] },
                ),
                ..self
            }
        } else {
            self
        }
    }
}

/// How full a transmit ring is.
#[derive(Clone, Copy, Debug, PartialEq, Eq, Structural)]
pub struct TxState {
    /// The number of slots.
    pub capacity: usize,
    /// How many frames were submitted and not yet reclaimed.
    pub in_flight: usize,
}

/// A transmit ring: descriptors and buffers bound one to one, a cursor for the
/// next frame to submit and one for the next frame to reclaim.
pub struct TxRing<B: Barrier> {
    descriptors: Vec<TxDescriptor>,
    buffers: Vec<Buffer>,
    next_submit: usize,
    next_reclaim: usize,
    in_flight: usize,
    mode: TimestampMode,
    barrier: B,
}

impl<B: Barrier> View for TxRing<B> {
    type V = TxRingView;

    closed spec fn view(&self) -> TxRingView {
        TxRingView {
            descriptors: self.descriptors@.map_values(|d: TxDescriptor| d@),
            buffers: buffer_views(self.buffers@),
            next_submit: self.next_submit as int,
            next_reclaim: self.next_reclaim as int,
            in_flight: self.in_flight as int,
            mode: self.mode,
        }
    }
}

impl<B: Barrier> TxRing<B> {
    /// Binds each descriptor to the buffer of its slot. Every descriptor is
    /// reset, so the ring starts empty and in software's hands.
    ///
    /// The ring is refused when the counts differ, when there is no slot, or
    /// when the buffers are not all of one size that a descriptor can
    /// describe.
    pub fn new(
        descriptors: Vec<TxDescriptor>,
        buffers: Vec<Buffer>,
        mode: TimestampMode,
        barrier: B,
    ) -> (result: Result<Self, InitError>)
        ensures
            match result {
                Ok(ring) => {
                    &&& init_error(descriptors@.len(), buffer_views(buffers@), TX_MIN_SLOTS as nat)
                        is None
                    &&& ring@.wf()
                    &&& ring@.buffers == buffer_views(buffers@)
                    &&& ring@.descriptors.len() == descriptors@.len()
                    &&& forall|i: int|
                        0 <= i < ring@.capacity() ==> {
                            &&& (#[trigger] ring@.descriptors[i]).words == seq![
                                0u32,
                                0u32,
                                0u32,
                                0u32,
                            ]
                            &&& ring@.descriptors[i].packet_id is None
                            &&& ring@.descriptors[i].timestamp is None
                        }
                    &&& ring@.next_submit == 0
                    &&& ring@.next_reclaim == 0
                    &&& ring@.in_flight == 0
                    &&& ring@.mode == mode
                },
                Err(e) => Some(e) == init_error(
                    descriptors@.len(),
                    buffer_views(buffers@),
                    TX_MIN_SLOTS as nat,
                ),
            },
    {
        let mut descriptors = descriptors;
        let n = descriptors.len();
        match check_parts(n, &buffers, TX_MIN_SLOTS) {
            Err(e) => {
                return Err(e);
            },
            Ok(_) => {},
        }
        let mut i: usize = 0;
        while i < n
            invariant
                i <= n,
                n == descriptors@.len(),
                forall|j: int|
                    0 <= j < i ==> {
                        &&& (#[trigger] descriptors@[j])@.words == seq![0u32, 0u32, 0u32, 0u32]
                        &&& descriptors@[j]@.packet_id is None
                        &&& descriptors@[j]@.timestamp is None
                        &&& descriptors@[j]@.wf()
                        &&& !descriptors@[j]@.is_owned()
                    },
            decreases n - i,
        {
            descriptors[i] = TxDescriptor::new();
            i = i + 1;
        }
        let ring = TxRing {
            descriptors,
            buffers,
            next_submit: 0,
            next_reclaim: 0,
            in_flight: 0,
            mode,
            barrier,
        };
        Ok(ring)
    }

    /// The number of slots.
    pub fn capacity(&self) -> (capacity: usize)
        ensures
            capacity == self@.capacity(),
    {
        self.descriptors.len()
    }

    /// How many frames were submitted and not yet reclaimed.
    pub fn in_flight(&self) -> (in_flight: usize)
        ensures
            in_flight == self@.in_flight,
    {
        self.in_flight
    }

    /// Does every slot hold a frame that was not yet reclaimed?
    pub fn is_full(&self) -> (full: bool)
        ensures
            full == self@.is_full(),
    {
        self.in_flight == self.descriptors.len()
    }

    /// The slot that takes the next frame.
    pub fn next_submit(&self) -> (slot: usize)
        ensures
            slot == self@.next_submit,
    {
        self.next_submit
    }

    /// The slot whose frame is the oldest not yet reclaimed.
    pub fn next_reclaim(&self) -> (slot: usize)
        ensures
            slot == self@.next_reclaim,
    {
        self.next_reclaim
    }

    /// How full the ring is.
    pub fn tx_state(&self) -> (state: TxState)
        ensures
            state.capacity == self@.capacity(),
            state.in_flight == self@.in_flight,
    {
        TxState { capacity: self.descriptors.len(), in_flight: self.in_flight }
    }

    /// The size of every buffer.
    pub fn buffer_size(&self) -> (size: usize)
        requires
            self@.wf(),
        ensures
            size == self@.buffer_size(),
            0 < size <= MAX_FRAME_LENGTH,
    {
        assert(self@.buffers[0] == self.buffers@[0]@);
        self.buffers[0].len()
    }

    /// A copy of the descriptor of `slot`.
    pub fn descriptor(&self, slot: usize) -> (desc: TxDescriptor)
        requires
            slot < self@.capacity(),
        ensures
            desc@ == self@.descriptors[slot as int],
    {
        self.descriptors[slot]
    }

    /// The bytes of the buffer of `slot`.
    pub fn buffer(&self, slot: usize) -> (bytes: &[u8])
        requires
            self@.wf(),
            slot < self@.capacity(),
        ensures
            bytes@ == self@.buffers[slot as int].data,
    {
        assert(self@.buffers[slot as int] == self.buffers@[slot as int]@);
        self.buffers[slot].as_slice()
    }

    /// Submits one frame under the tag `packet_id`.
    ///
    /// A full ring takes no frame: the call fails with `WouldBlock` and
    /// changes nothing, not a byte of a buffer. Else `frame` is copied to the
    /// start of the next slot's buffer, the slot's descriptor is handed to
    /// the engine, and the submit cursor moves on by one slot.
    pub fn send(&mut self, packet_id: Option<PacketId>, frame: &[u8]) -> (result: Result<
        (),
        TxError,
    >)
        requires
            old(self)@.wf(),
            frame@.len() <= old(self)@.buffer_size(),
        ensures
            final(self)@.wf(),
            result == old(self)@.send_result(),
            final(self)@ == old(self)@.after_send(packet_id, frame@),
            result is Ok ==> final(self)@.pending() == old(self)@.pending().push(
                old(self)@.next_submit,
            ),
            result is Ok ==> !old(self)@.descriptors[old(self)@.next_submit].is_owned(),
            result is Ok ==> final(self)@.descriptors[old(self)@.next_submit].is_owned(),
    {
        let n = self.descriptors.len();
        if self.in_flight == n {
            return Err(TxError::WouldBlock);
        }
        let slot = self.next_submit;
        proof {
            assert(self@.is_free(slot as int));
            assert(self@.descriptors[slot as int] == self.descriptors@[slot as int]@);
            assert(self@.buffers[slot as int] == self.buffers@[slot as int]@);
            assert(self@.buffers[0] == self.buffers@[0]@);
        }
        self.buffers[slot].fill(frame);
        let address = self.buffers[slot].address();
        let _sent = self.descriptors[slot].send(
            address,
            frame.len(),
            packet_id,
            self.mode,
            &self.barrier,
        );
        self.next_submit = advance(slot, n);
        self.in_flight = self.in_flight + 1;
        proof {
            let after = old(self)@.after_send(packet_id, frame@);
            assert(self@.descriptors =~= after.descriptors);
            assert(self@.buffers =~= after.buffers);
            assert(self@ == after);
            lemma_send_keeps_wf(old(self)@, packet_id, frame@);
        }
        Ok(())
    }

    /// Takes back the oldest frame in flight, for a caller that asks for the
    /// frame tagged `packet_id`.
    ///
    /// Only the oldest frame is looked at: frames come back in the order in
    /// which they were submitted. With no frame in flight, or while the
    /// engine still owns the oldest, the call fails with `WouldBlock` and
    /// changes nothing. Else the slot is software's again, the reclaim cursor
    /// moves on by one slot, and the call returns what the descriptor says:
    /// `Failed` where the engine flagged an error, else the timestamp, handed
    /// out where the frame carries the tag asked for.
    pub fn reclaim_next(&mut self, packet_id: Option<PacketId>) -> (result: Result<
        Option<Timestamp>,
        TxError,
    >)
        requires
            old(self)@.wf(),
        ensures
            final(self)@.wf(),
            result == old(self)@.reclaim_result(packet_id),
            final(self)@ == old(self)@.after_reclaim(),
            old(self)@.reclaim_blocked() <==> result == Err::<Option<Timestamp>, TxError>(
                TxError::WouldBlock,
            ),
            !old(self)@.reclaim_blocked() ==> final(self)@.pending() == old(self)@.pending()
                .drop_first(),
    {
        if self.in_flight == 0 {
            return Err(TxError::WouldBlock);
        }
        let n = self.descriptors.len();
        let slot = self.next_reclaim;
        proof {
            assert(self@.descriptors[slot as int] == self.descriptors@[slot as int]@);
        }
        let outcome = self.descriptors[slot].take_completed(packet_id, self.mode);
        match outcome {
            Err(TxError::WouldBlock) => {
                proof {
                    assert(self@.descriptors =~= old(self)@.descriptors);
                }
                Err(TxError::WouldBlock)
            },
            _ => {
                self.next_reclaim = advance(slot, n);
                self.in_flight = self.in_flight - 1;
                proof {
                    let after = old(self)@.after_reclaim();
                    assert(self@.descriptors =~= after.descriptors);
                    assert(self@ == after);
                    lemma_reclaim_keeps_wf(old(self)@);
                }
                outcome
            },
        }
    }

    /// What the engine does when it is done with the frame in `slot`: it
    /// writes all four words of the descriptor. The engine acts only on a
    /// descriptor that it owns: for any other slot, and for a slot that is
    /// not there, the call changes nothing and returns `false`.
    ///
    /// Software never calls this on a live ring. It is the engine's half of
    /// the protocol, for a simulation of it.
    pub fn write_back(&mut self, slot: usize, words: [u32; 4]) -> (accepted: bool)
        requires
            old(self)@.wf(),
        ensures
            final(self)@.wf(),
            accepted == old(self)@.accepts_write_back(slot as int),
            final(self)@ == old(self)@.after_write_back(slot as int, words@),
    {
        if slot >= self.descriptors.len() {
            return false;
        }
        proof {
            assert(self@.descriptors[slot as int] == self.descriptors@[slot as int]@);
        }
        let accepted = self.descriptors[slot].write_back(words);
        proof {
            let after = old(self)@.after_write_back(slot as int, words@);
            assert(self@.descriptors =~= after.descriptors);
            assert(self@ == after);
            lemma_write_back_keeps_wf(old(self)@, slot as int, words@);
        }
        accepted
    }
}

/// A sound ring is sound after `send`. The slot that took the frame was in
/// software's hands when its buffer was written, is the engine's afterwards,
/// and joins the frames in flight as the youngest.
pub proof fn lemma_send_keeps_wf(ring: TxRingView, packet_id: Option<PacketId>, frame: Seq<u8>)
    requires
        ring.wf(),
        frame.len() <= ring.buffer_size(),
    ensures
        ring.after_send(packet_id, frame).wf(),
        !ring.is_full() ==> ring.after_send(packet_id, frame).pending() == ring.pending().push(
            ring.next_submit,
        ),
        !ring.is_full() ==> !ring.descriptors[ring.next_submit].is_owned(),
        !ring.is_full() ==> ring.after_send(packet_id, frame).descriptors[ring.next_submit]
            .is_owned(),
{
    let after = ring.after_send(packet_id, frame);
    if !ring.is_full() {
        let slot = ring.next_submit;
        let length = frame.len() as u32;
        assert(ring.is_free(slot));
        assert(status_owned(status_submitted(length))) by (bit_vector);
        assert(after.descriptors[slot].wf());
        assert forall|i: int| 0 <= i < after.capacity() implies (#[trigger] after.descriptors[i])
            .wf() by {
            if i != slot {
                assert(after.descriptors[i] == ring.descriptors[i]);
            }
        }
        assert forall|i: int| 0 <= i < after.capacity() && after.is_free(i) implies !(
        #[trigger] after.descriptors[i]).is_owned() by {
            assert(i != slot);
            assert(ring.is_free(i));
            assert(after.descriptors[i] == ring.descriptors[i]);
        }
        assert(uniform(after.buffers)) by {
            assert(ring.buffers[slot].data.len() == ring.buffers[0].data.len());
            assert forall|i: int| 0 <= i < after.buffers.len() implies (#[trigger] after.buffers[i])
                .data.len() == ring.buffers[0].data.len() by {
                if i != slot {
                    assert(after.buffers[i] == ring.buffers[i]);
                }
            }
        }
        assert(after.pending() =~= ring.pending().push(slot));
    }
}

/// A sound ring is sound after `reclaim_next`, and where a frame came back
/// it was the oldest in flight.
pub proof fn lemma_reclaim_keeps_wf(ring: TxRingView)
    requires
        ring.wf(),
    ensures
        ring.after_reclaim().wf(),
        !ring.reclaim_blocked() ==> ring.after_reclaim().pending() == ring.pending().drop_first(),
        !ring.reclaim_blocked() ==> ring.pending()[0] == ring.next_reclaim,
        !ring.reclaim_blocked() ==> !ring.after_reclaim().descriptors[ring.next_reclaim].is_owned(),
{
    let after = ring.after_reclaim();
    if !ring.reclaim_blocked() {
        let slot = ring.next_reclaim;
        assert forall|i: int| 0 <= i < after.capacity() implies (#[trigger] after.descriptors[i])
            .wf() by {
            if i != slot {
                assert(after.descriptors[i] == ring.descriptors[i]);
            } else {
                assert(ring.descriptors[slot].wf());
            }
        }
        assert forall|i: int| 0 <= i < after.capacity() && after.is_free(i) implies !(
        #[trigger] after.descriptors[i]).is_owned() by {
            if i != slot {
                assert(ring.is_free(i));
                assert(after.descriptors[i] == ring.descriptors[i]);
            }
        }
        assert(after.pending() =~= ring.pending().drop_first());
    }
}

/// A sound ring is sound after a write-back by the engine.
pub proof fn lemma_write_back_keeps_wf(ring: TxRingView, slot: int, words: Seq<u32>)
    requires
        ring.wf(),
        words.len() == 4,
    ensures
        ring.after_write_back(slot, words).wf(),
        ring.after_write_back(slot, words).pending() == ring.pending(),
        ring.after_write_back(slot, words).buffers == ring.buffers,
{
    let after = ring.after_write_back(slot, words);
    if ring.accepts_write_back(slot) {
        assert(ring.descriptors[slot].wf());
        assert forall|i: int| 0 <= i < after.capacity() implies (#[trigger] after.descriptors[i])
            .wf() by {
            if i != slot {
                assert(after.descriptors[i] == ring.descriptors[i]);
            }
        }
        assert forall|i: int| 0 <= i < after.capacity() && after.is_free(i) implies !(
        #[trigger] after.descriptors[i]).is_owned() by {
            assert(ring.is_free(i));
            if i != slot {
                assert(after.descriptors[i] == ring.descriptors[i]);
            } else {
                assert(!ring.descriptors[i].is_owned());
            }
        }
        assert(after.pending() =~= ring.pending());
    }
}

} // verus!

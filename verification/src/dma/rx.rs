//! The receive side: descriptors that the engine fills with frames.

use crate::dma::buffer::{overwritten, Buffer, BufferView, MAX_FRAME_LENGTH};
use crate::dma::cursor::{
    advance, buffer_views, check_parts, init_error, next_slot, previous_slot, uniform,
};
use crate::dma::fence::Barrier;
use crate::dma::rx::descriptor::{
    status_armed, status_owned, RxDescriptor, RxDescriptorView,
};
use crate::dma::{InitError, PacketId, RxError};
use crate::ptp::{Timestamp, TimestampMode};
use vstd::prelude::*;

pub mod descriptor;
pub mod laws;

verus! {

/// The fewest slots that a receive ring can have: one may be lent to the
/// caller, and the engine needs another to go on.
pub const RX_MIN_SLOTS: usize = 2;

/// A receive ring as a value.
pub struct RxRingView {
    /// The descriptors, slot by slot.
    pub descriptors: Seq<RxDescriptorView>,
    /// The buffers, slot by slot.
    pub buffers: Seq<BufferView>,
    /// The slot in which the next frame is looked for.
    pub next: int,
    /// The slot whose frame the caller was given last, if that slot has not
    /// gone back to the engine yet.
    pub held: Option<int>,
    /// How the engine marks a timestamp.
    pub mode: TimestampMode,
}

impl RxRingView {
    /// The number of slots.
    pub open spec fn capacity(self) -> int {
        self.descriptors.len() as int
    }

    /// The size of every buffer.
    pub open spec fn buffer_size(self) -> nat {
        self.buffers[0].data.len()
    }

    /// The ring is sound: as many buffers as descriptors and at least two,
    /// buffers of one size, each descriptor sound, the cursor inside the
    /// ring, and the slot lent to the caller, if any, the one before the
    /// cursor and in software's hands.
    pub open spec fn wf(self) -> bool {
        &&& self.descriptors.len() == self.buffers.len()
        &&& self.capacity() >= RX_MIN_SLOTS
        &&& uniform(self.buffers)
        &&& 0 <= self.next < self.capacity()
        &&& forall|i: int| 0 <= i < self.capacity() ==> (#[trigger] self.descriptors[i]).wf()
        &&& self.held is Some ==> {
            &&& self.held->0 == previous_slot(self.next, self.capacity())
            &&& !self.descriptors[self.held->0].is_owned()
        }
    }

    /// The descriptor of `slot` after it has gone back to the engine with
    /// the buffer of its slot.
    pub open spec fn rearmed(self, slot: int) -> RxDescriptorView {
        self.descriptors[slot].handed_over(self.buffers[slot].address)
    }

    /// The descriptors after the slot lent to the caller, if any, has gone
    /// back to the engine.
    pub open spec fn held_returned(self) -> Seq<RxDescriptorView> {
        match self.held {
            Some(slot) => self.descriptors.update(slot, self.rearmed(slot)),
            None => self.descriptors,
        }
    }

    /// What `recv_next` finds: what the descriptor under the cursor says, and
    /// no other.
    pub open spec fn recv_result(self) -> Result<(), RxError> {
        self.descriptors[self.next].take_result()
    }

    /// The ring after `recv_next`.
    ///
    /// While the engine owns the descriptor under the cursor, nothing
    /// changes. Else the cursor moves on by one slot and the slot lent
    /// before goes back to the engine. One whole frame is taken under the tag
    /// `packet_id` and its slot is lent to the caller; anything else goes
    /// back to the engine at once.
    pub open spec fn after_recv(self, packet_id: Option<PacketId>) -> RxRingView {
        let slot = self.next;
        match self.recv_result() {
            Err(RxError::WouldBlock) => self,
            Err(RxError::Truncated) => RxRingView {
                descriptors: self.held_returned().update(slot, self.rearmed(slot)),
                next: next_slot(slot, self.capacity()),
                held: None,
                ..self
            },
            Ok(_) => RxRingView {
                descriptors: self.held_returned().update(
                    slot,
                    self.descriptors[slot].taken(packet_id, self.mode),
                ),
                next: next_slot(slot, self.capacity()),
                held: Some(slot),
                ..self
            },
        }
    }

    /// The bytes of the frame in `slot`: as many bytes of the slot's buffer
    /// as the descriptor reports, and never more than the buffer has.
    pub open spec fn frame(self, slot: int) -> Seq<u8> {
        let length = self.descriptors[slot].frame_length() as int;
        let size = self.buffers[slot].data.len() as int;
        self.buffers[slot].data.take(
            if length <= size {
                length
            } else {
                size
            },
        )
    }

    /// The engine can deliver `frame` to `slot`: the slot exists, the engine
    /// owns its descriptor, and the frame fits the buffer.
    pub open spec fn accepts_delivery(self, slot: int, frame: Seq<u8>) -> bool {
        &&& 0 <= slot < self.capacity()
        &&& self.descriptors[slot].is_owned()
        &&& frame.len() <= self.buffers[slot].data.len()
    }

    /// The ring after the engine delivered `frame` to `slot` and wrote
    /// `words` back: the frame at the start of the slot's buffer, the words
    /// in its descriptor, and nothing else touched; the ring as it was where
    /// the engine cannot deliver.
    pub open spec fn after_delivery(self, slot: int, frame: Seq<u8>, words: Seq<u32>)
        -> RxRingView {
        if self.accepts_delivery(slot, frame) {
            RxRingView {
                descriptors: self.descriptors.update(
                    slot,
                    RxDescriptorView { words, ..self.descriptors[slot] },
                ),
                buffers: self.buffers.update(
                    slot,
                    BufferView {
                        address: self.buffers[slot].address,
                        data: overwritten(self.buffers[slot].data, frame),
                    },
                ),
                ..self
            }
        } else {
            self
        }
    }
}

/// One received frame, lent to the caller until the ring is asked for the
/// next.
#[derive(Clone, Copy, Debug)]
pub struct RxFrame<'a> {
    /// The bytes of the frame.
    pub data: &'a [u8],
    /// The tag under which the frame was taken.
    pub packet_id: Option<PacketId>,
    /// When the engine received the frame, where it said so.
    pub timestamp: Option<Timestamp>,
}

/// A receive ring: descriptors and buffers bound one to one, and the cursor
/// under which the next frame is looked for.
pub struct RxRing<B: Barrier> {
    descriptors: Vec<RxDescriptor>,
    buffers: Vec<Buffer>,
    next: usize,
    held: Option<usize>,
    mode: TimestampMode,
    barrier: B,
}

impl<B: Barrier> View for RxRing<B> {
    type V = RxRingView;

    closed spec fn view(&self) -> RxRingView {
        RxRingView {
            descriptors: self.descriptors@.map_values(|d: RxDescriptor| d@),
            buffers: buffer_views(self.buffers@),
            next: self.next as int,
            held: match self.held {
                Some(slot) => Some(slot as int),
                None => None,
            },
            mode: self.mode,
        }
    }
}

/// The descriptor of a slot that was reset and handed to the engine with the
/// buffer at `address`.
pub open spec fn armed_descriptor(address: u32) -> RxDescriptorView {
    (RxDescriptorView {
        words: seq![0u32, 0u32, 0u32, 0u32],
        packet_id: None,
        timestamp: None,
    }).handed_over(address)
}

impl<B: Barrier> RxRing<B> {
    /// Binds each descriptor to the buffer of its slot and hands every slot
    /// to the engine: a receive ring waits for frames with all it has.
    ///
    /// The ring is refused when the counts differ, when there are fewer than
    /// two slots, or when the buffers are not all of one size that a
    /// descriptor can describe.
    pub fn new(
        descriptors: Vec<RxDescriptor>,
        buffers: Vec<Buffer>,
        mode: TimestampMode,
        barrier: B,
    ) -> (result: Result<Self, InitError>)
        ensures
            match result {
                Ok(ring) => {
                    &&& init_error(descriptors@.len(), buffer_views(buffers@), RX_MIN_SLOTS as nat)
                        is None
                    &&& ring@.wf()
                    &&& ring@.buffers == buffer_views(buffers@)
                    &&& ring@.descriptors.len() == descriptors@.len()
                    &&& forall|i: int|
                        0 <= i < ring@.capacity() ==> {
                            &&& #[trigger] ring@.descriptors[i] == armed_descriptor(
                                ring@.buffers[i].address,
                            )
                            &&& ring@.descriptors[i].is_owned()
                        }
                    &&& ring@.next == 0
                    &&& ring@.held is None
                    &&& ring@.mode == mode
                },
                Err(e) => Some(e) == init_error(
                    descriptors@.len(),
                    buffer_views(buffers@),
                    RX_MIN_SLOTS as nat,
                ),
            },
    {
        let mut descriptors = descriptors;
        let n = descriptors.len();
        match check_parts(n, &buffers, RX_MIN_SLOTS) {
            Err(e) => {
                return Err(e);
            },
            Ok(_) => {},
        }
        let mut i: usize = 0;
        while i < n
            invariant
                i <= n,
                n == descriptors@.len(),
                n == buffers@.len(),
                forall|j: int|
                    0 <= j < i ==> {
                        &&& (#[trigger] descriptors@[j])@ == armed_descriptor(
                            buffers@[j]@.address,
                        )
                        &&& descriptors@[j]@.wf()
                        &&& descriptors@[j]@.is_owned()
                    },
            decreases n - i,
        {
            let mut fresh = RxDescriptor::new();
            fresh.setup(buffers[i].address(), &barrier);
            descriptors[i] = fresh;
            i = i + 1;
        }
        let ring = RxRing { descriptors, buffers, next: 0, held: None, mode, barrier };
        proof {
            assert forall|i: int| 0 <= i < ring@.capacity() implies {
                &&& #[trigger] ring@.descriptors[i] == armed_descriptor(ring@.buffers[i].address)
                &&& ring@.descriptors[i].is_owned()
            } by {
                assert(ring@.descriptors[i] == ring.descriptors@[i]@);
                assert(ring@.buffers[i] == ring.buffers@[i]@);
            }
        }
        Ok(ring)
    }

    /// The number of slots.
    pub fn capacity(&self) -> (capacity: usize)
        ensures
            capacity == self@.capacity(),
    {
        self.descriptors.len()
    }

    /// The size of every buffer.
    pub fn buffer_size(&self) -> (size: usize)
        requires
            self@.wf(),
        ensures
            size == self@.buffer_size(),
            0 < size <= MAX_FRAME_LENGTH,
    {
        assert(self@.buffers[0] == self.buffers@[0]@);
        self.buffers[0].len()
    }

    /// The slot in which the next frame is looked for.
    pub fn next_slot(&self) -> (slot: usize)
        ensures
            slot == self@.next,
    {
        self.next
    }

    /// The slot whose frame the caller was given last, if that slot has not
    /// gone back to the engine yet.
    pub fn held(&self) -> (slot: Option<usize>)
        ensures
            slot is Some == self@.held is Some,
            slot is Some ==> slot->0 == self@.held->0,
    {
        self.held
    }

    /// A copy of the descriptor of `slot`.
    pub fn descriptor(&self, slot: usize) -> (desc: RxDescriptor)
        requires
            slot < self@.capacity(),
        ensures
            desc@ == self@.descriptors[slot as int],
    {
        self.descriptors[slot]
    }

    /// The bytes of the buffer of `slot`.
    pub fn buffer(&self, slot: usize) -> (bytes: &[u8])
        requires
            self@.wf(),
            slot < self@.capacity(),
        ensures
            bytes@ == self@.buffers[slot as int].data,
    {
        assert(self@.buffers[slot as int] == self.buffers@[slot as int]@);
        self.buffers[slot].as_slice()
    }

    /// Hands the slot lent to the caller, if any, back to the engine.
    fn return_held(&mut self)
        requires
            old(self)@.wf(),
        ensures
            final(self)@ == (RxRingView { descriptors: old(self)@.held_returned(), ..old(self)@ }),
            final(self).held == old(self).held,
    {
        match self.held {
            Some(slot) => {
                proof {
                    assert(self@.descriptors[slot as int] == self.descriptors@[slot as int]@);
                    assert(self@.buffers[slot as int] == self.buffers@[slot as int]@);
                }
                let address = self.buffers[slot].address();
                self.descriptors[slot].setup(address, &self.barrier);
                proof {
                    assert(self@.descriptors =~= old(self)@.held_returned());
                }
            },
            None => {},
        }
    }

    /// Looks for the next frame, under the cursor and nowhere else.
    ///
    /// While the engine owns the descriptor under the cursor, the call fails
    /// with `WouldBlock` and changes nothing: it can be made again at any
    /// time. Else the cursor moves on by one slot, and the slot whose frame
    /// was lent before goes back to the engine. One whole frame is taken
    /// under the tag `packet_id` and lent to the caller: its bytes, its tag
    /// and its timestamp. Anything else is dropped: its slot goes back to the
    /// engine at once and the call fails with `Truncated`.
    pub fn recv_next(&mut self, packet_id: Option<PacketId>) -> (result: Result<
        RxFrame<'_>,
        RxError,
    >)
        requires
            old(self)@.wf(),
        ensures
            final(self)@.wf(),
            final(self)@ == old(self)@.after_recv(packet_id),
            match result {
                Ok(frame) => {
                    &&& old(self)@.recv_result() is Ok
                    &&& frame.data@ == final(self)@.frame(old(self)@.next)
                    &&& frame.data@.len() <= final(self)@.descriptors[old(self)@.next]
                        .frame_length()
                    &&& frame.packet_id == packet_id
                    &&& frame.timestamp == final(self)@.descriptors[old(self)@.next].timestamp
                    &&& !final(self)@.descriptors[old(self)@.next].is_owned()
                },
                Err(e) => old(self)@.recv_result() == Err::<(), RxError>(e),
            },
            result is Err && result->Err_0 == RxError::WouldBlock ==> final(self)@ == old(self)@,
            result is Err && result->Err_0 == RxError::Truncated ==> {
                final(self)@.descriptors[old(self)@.next].is_owned()
            },
    {
        let n = self.descriptors.len();
        let slot = self.next;
        proof {
            assert(self@.descriptors[slot as int] == self.descriptors@[slot as int]@);
            assert(self@.buffers[slot as int] == self.buffers@[slot as int]@);
            lemma_recv_keeps_wf(self@, packet_id);
        }
        let address = self.buffers[slot].address();
        let taken = self.descriptors[slot].take_received(
            packet_id,
            address,
            self.mode,
            &self.barrier,
        );
        match taken {
            Err(RxError::WouldBlock) => {
                proof {
                    assert(self@.descriptors =~= old(self)@.descriptors);
                }
                Err(RxError::WouldBlock)
            },
            Err(RxError::Truncated) => {
                let ghost mid = self@;
                proof {
                    assert(mid.descriptors =~= old(self)@.descriptors.update(
                        slot as int,
                        old(self)@.rearmed(slot as int),
                    ));
                    lemma_held_is_elsewhere(old(self)@);
                    assert(mid.wf());
                }
                self.return_held();
                self.held = None;
                self.next = advance(slot, n);
                proof {
                    let after = old(self)@.after_recv(packet_id);
                    assert(self@.descriptors =~= after.descriptors);
                    assert(self@ == after);
                }
                Err(RxError::Truncated)
            },
            Ok(_) => {
                let ghost mid = self@;
                proof {
                    assert(mid.descriptors =~= old(self)@.descriptors.update(
                        slot as int,
                        old(self)@.descriptors[slot as int].taken(packet_id, old(self)@.mode),
                    ));
                    lemma_held_is_elsewhere(old(self)@);
                    assert(mid.wf());
                }
                self.return_held();
                self.held = Some(slot);
                self.next = advance(slot, n);
                proof {
                    let after = old(self)@.after_recv(packet_id);
                    assert(self@.descriptors =~= after.descriptors);
                    assert(self@ == after);
                    assert(self@.descriptors[slot as int] == self.descriptors@[slot as int]@);
                    assert(self@.buffers[slot as int] == self.buffers@[slot as int]@);
                }
                let length = self.descriptors[slot].frame_length();
                let size = self.buffers[slot].len();
                let shown = if length <= size {
                    length
                } else {
                    size
                };
                let timestamp = match self.descriptors[slot].timestamp() {
                    Some(stamp) => Some(*stamp),
                    None => None,
                };
                Ok(RxFrame { data: self.buffers[slot].prefix(shown), packet_id, timestamp })
            },
        }
    }

    /// What the engine does when a frame arrives for `slot`: it stores the
    /// frame at the start of the slot's buffer and writes all four words of
    /// the descriptor. The engine acts only on a descriptor that it owns, and
    /// stores no frame that the buffer cannot hold: else the call changes
    /// nothing and returns `false`.
    ///
    /// Software never calls this on a live ring. It is the engine's half of
    /// the protocol, for a simulation of it.
    pub fn deliver(&mut self, slot: usize, frame: &[u8], words: [u32; 4]) -> (accepted: bool)
        requires
            old(self)@.wf(),
        ensures
            final(self)@.wf(),
            accepted == old(self)@.accepts_delivery(slot as int, frame@),
            final(self)@ == old(self)@.after_delivery(slot as int, frame@, words@),
    {
        if slot >= self.descriptors.len() {
            return false;
        }
        proof {
            assert(self@.descriptors[slot as int] == self.descriptors@[slot as int]@);
            assert(self@.buffers[slot as int] == self.buffers@[slot as int]@);
        }
        if !self.descriptors[slot].is_owned() || frame.len() > self.buffers[slot].len() {
            return false;
        }
        self.buffers[slot].fill(frame);
        let _written = self.descriptors[slot].write_back(words);
        proof {
            let after = old(self)@.after_delivery(slot as int, frame@, words@);
            assert(self@.descriptors =~= after.descriptors);
            assert(self@.buffers =~= after.buffers);
            assert(self@ == after);
            lemma_delivery_keeps_wf(old(self)@, slot as int, frame@, words@);
        }
        true
    }
}

/// In a sound ring the slot lent to the caller is never the slot under the
/// cursor.
pub proof fn lemma_held_is_elsewhere(ring: RxRingView)
    requires
        ring.wf(),
    ensures
        ring.held is Some ==> ring.held->0 != ring.next && 0 <= ring.held->0 < ring.capacity(),
{
}

/// A sound ring is sound after `recv_next`. Where the call did not block,
/// every slot but the one just lent is in the engine's hands again if it was
/// before or was lent before, and a dropped frame's slot is the engine's
/// again too.
pub proof fn lemma_recv_keeps_wf(ring: RxRingView, packet_id: Option<PacketId>)
    requires
        ring.wf(),
    ensures
        ring.after_recv(packet_id).wf(),
        ring.recv_result() == Err::<(), RxError>(RxError::Truncated) ==> ring.after_recv(
            packet_id,
        ).descriptors[ring.next].is_owned(),
        !(ring.recv_result() == Err::<(), RxError>(RxError::WouldBlock)) && ring.held is Some
            ==> ring.after_recv(packet_id).descriptors[ring.held->0].is_owned(),
        ring.recv_result() is Ok ==> !ring.after_recv(packet_id).descriptors[ring.next].is_owned(),
{
    let after = ring.after_recv(packet_id);
    let slot = ring.next;
    lemma_held_is_elsewhere(ring);
    assert(ring.descriptors[slot].wf());
    if ring.held is Some {
        let held = ring.held->0;
        assert(ring.descriptors[held].wf());
        lemma_handed_over_is_owned(ring.descriptors[held], ring.buffers[held].address);
    }
    lemma_handed_over_is_owned(ring.descriptors[slot], ring.buffers[slot].address);
    match ring.recv_result() {
        Err(RxError::WouldBlock) => {},
        _ => {
            assert forall|i: int| 0 <= i < after.capacity() implies (
            #[trigger] after.descriptors[i]).wf() by {
                if i != slot && !(ring.held is Some && ring.held->0 == i) {
                    assert(after.descriptors[i] == ring.descriptors[i]);
                }
            }
        },
    }
}

/// A descriptor that has been handed to the engine is sound and owned by the
/// engine.
pub proof fn lemma_handed_over_is_owned(desc: RxDescriptorView, buffer: u32)
    requires
        desc.words.len() == 4,
    ensures
        desc.handed_over(buffer).wf(),
        desc.handed_over(buffer).is_owned(),
{
    let status = desc.status();
    assert(status_owned(status_armed(status))) by (bit_vector);
}

/// A sound ring is sound after a delivery by the engine, and the slot lent
/// to the caller is not touched by it.
pub proof fn lemma_delivery_keeps_wf(ring: RxRingView, slot: int, frame: Seq<u8>, words: Seq<u32>)
    requires
        ring.wf(),
        words.len() == 4,
    ensures
        ring.after_delivery(slot, frame, words).wf(),
        ring.after_delivery(slot, frame, words).next == ring.next,
        ring.after_delivery(slot, frame, words).held == ring.held,
        ring.held is Some ==> {
            &&& ring.after_delivery(slot, frame, words).buffers[ring.held->0]
                == ring.buffers[ring.held->0]
            &&& ring.after_delivery(slot, frame, words).descriptors[ring.held->0]
                == ring.descriptors[ring.held->0]
        },
{
    let after = ring.after_delivery(slot, frame, words);
    if ring.accepts_delivery(slot, frame) {
        assert(ring.descriptors[slot].wf());
        assert forall|i: int| 0 <= i < after.capacity() implies (#[trigger] after.descriptors[i])
            .wf() by {
            if i != slot {
                assert(after.descriptors[i] == ring.descriptors[i]);
            }
        }
        assert(uniform(after.buffers)) by {
            assert(ring.buffers[slot].data.len() == ring.buffers[0].data.len());
            assert forall|i: int| 0 <= i < after.buffers.len() implies (#[trigger] after.buffers[i])
                .data.len() == ring.buffers[0].data.len() by {
                if i != slot {
                    assert(after.buffers[i] == ring.buffers[i]);
                }
            }
        }
    }
}

} // verus!

//! The receive descriptor: what its words mean, and how it changes hands.

use crate::dma::fence::{compiler_fence, memory_fence, Barrier, FenceOrder};
use crate::dma::raw_descriptor::RawDescriptor;
use crate::dma::{PacketId, RxError};
use crate::ptp::{Timestamp, TimestampMode};
use vstd::prelude::*;

verus! {

/// Owned by the engine.
pub const RXDESC_3_OWN: u32 = 0x8000_0000;

// Bits that software writes before it hands the descriptor over.
/// Interrupt on completion.
pub const RXDESC_3_IOC: u32 = 0x4000_0000;

/// Buffer 2 address valid.
pub const RXDESC_3_BUF2V: u32 = 0x0200_0000;

/// Buffer 1 address valid.
pub const RXDESC_3_BUF1V: u32 = 0x0100_0000;

// Bits that the engine writes back.
/// Context descriptor.
pub const RXDESC_3_CTXT: u32 = 0x4000_0000;

/// First descriptor of a frame.
pub const RXDESC_3_FD: u32 = 0x2000_0000;

/// Last descriptor of a frame.
pub const RXDESC_3_LD: u32 = 0x1000_0000;

/// Receive status in word 2 is valid.
pub const RXDESC_3_RS2V: u32 = 0x0800_0000;

/// Receive status in word 1 is valid.
pub const RXDESC_3_RS1V: u32 = 0x0400_0000;

/// Receive status in word 0 is valid.
pub const RXDESC_3_RS0V: u32 = 0x0400_0000;

/// CRC error.
pub const RXDESC_3_CE: u32 = 0x0100_0000;

/// Giant packet.
pub const RXDESC_3_GP: u32 = 0x0080_0000;

/// Receive watchdog timeout.
pub const RXDESC_3_RWT: u32 = 0x0040_0000;

/// Overflow error.
pub const RXDESC_3_OE: u32 = 0x0020_0000;

/// Receive error.
pub const RXDESC_3_RE: u32 = 0x0010_0000;

/// Dribble bit error.
pub const RXDESC_3_DE: u32 = 0x0008_0000;

/// Shift of the length/type field.
pub const RXDESC_3_LT_SHIFT: u32 = 16;

/// Mask of the length/type field.
pub const RXDESC_3_LT_MASK: u32 = 0x0007_0000;

/// Error summary.
pub const RXDESC_3_ES: u32 = 0x0000_8000;

/// Shift of the packet length.
pub const RXDESC_3_PL_SHIFT: u32 = 0;

/// Mask of the packet length: 14 bits.
pub const RXDESC_3_PL_MASK: u32 = 0x3FFF;

/// Timestamp valid, in word 0.
pub const RXDESC_0_TIMESTAMP_VALID: u32 = 0x0000_0080;

/// Index of the word that holds the address of buffer 1.
pub const RXDESC_BUFFER_WORD: usize = 0;

/// Index of the word that holds ownership, control and status.
pub const RXDESC_STATUS_WORD: usize = 3;

/// What the three bits of the length/type field say of a frame.
#[allow(non_camel_case_types)]
#[derive(Clone, Copy, Debug, PartialEq, Eq, Structural)]
pub enum RXDESC_3_LT {
    /// Code 0: a length, not a type.
    Length,
    /// Code 1: a type.
    Type,
    /// Code 2: reserved.
    Reserved,
    /// Code 3: an ARP request.
    ArpRequest,
    /// Code 4: a type, with one VLAN tag.
    TypeWithVlan,
    /// Code 5: a type, with two VLAN tags.
    TypeWIthDoubleVlan,
    /// Code 6: a MAC control frame.
    MacControl,
    /// Code 7: an OAM frame.
    Oam,
}

impl RXDESC_3_LT {
    /// The code of the field, 0 to 7, for use in contracts.
    pub open spec fn spec_bits(self) -> u8 {
        match self {
            RXDESC_3_LT::Length => 0,
            RXDESC_3_LT::Type => 1,
            RXDESC_3_LT::Reserved => 2,
            RXDESC_3_LT::ArpRequest => 3,
            RXDESC_3_LT::TypeWithVlan => 4,
            RXDESC_3_LT::TypeWIthDoubleVlan => 5,
            RXDESC_3_LT::MacControl => 6,
            RXDESC_3_LT::Oam => 7,
        }
    }

    /// The code of the field, 0 to 7.
    pub fn bits(self) -> (code: u8)
        ensures
            code == self.spec_bits(),
            code <= 7,
    {
        match self {
            RXDESC_3_LT::Length => 0,
            RXDESC_3_LT::Type => 1,
            RXDESC_3_LT::Reserved => 2,
            RXDESC_3_LT::ArpRequest => 3,
            RXDESC_3_LT::TypeWithVlan => 4,
            RXDESC_3_LT::TypeWIthDoubleVlan => 5,
            RXDESC_3_LT::MacControl => 6,
            RXDESC_3_LT::Oam => 7,
        }
    }

    /// The field of a status word: the variant whose code is bits 16 to 18.
    pub fn from_status(status: u32) -> (field: RXDESC_3_LT)
        ensures
            field.spec_bits() == length_type_code(status),
    {
        let code: u32 = (status & RXDESC_3_LT_MASK) >> RXDESC_3_LT_SHIFT;
        assert(((status & 0x0007_0000u32) >> 16u32) <= 7) by (bit_vector);
        if code == 0 {
            RXDESC_3_LT::Length
        } else if code == 1 {
            RXDESC_3_LT::Type
        } else if code == 2 {
            RXDESC_3_LT::Reserved
        } else if code == 3 {
            RXDESC_3_LT::ArpRequest
        } else if code == 4 {
            RXDESC_3_LT::TypeWithVlan
        } else if code == 5 {
            RXDESC_3_LT::TypeWIthDoubleVlan
        } else if code == 6 {
            RXDESC_3_LT::MacControl
        } else {
            RXDESC_3_LT::Oam
        }
    }
}

/// The code in the length/type field of a status word.
pub open spec fn length_type_code(status: u32) -> u32 {
    (status & RXDESC_3_LT_MASK) >> RXDESC_3_LT_SHIFT
}

/// The engine owns a descriptor with this status word.
pub open spec fn status_owned(status: u32) -> bool {
    status & RXDESC_3_OWN == RXDESC_3_OWN
}

/// The error summary bit is set.
pub open spec fn status_has_error(status: u32) -> bool {
    status & RXDESC_3_ES == RXDESC_3_ES
}

/// The descriptor holds the first segment of a frame.
pub open spec fn status_is_first(status: u32) -> bool {
    status & RXDESC_3_FD == RXDESC_3_FD
}

/// The descriptor holds the last segment of a frame.
pub open spec fn status_is_last(status: u32) -> bool {
    status & RXDESC_3_LD == RXDESC_3_LD
}

/// The descriptor is a context descriptor: it holds no frame data.
pub open spec fn status_is_context(status: u32) -> bool {
    status & RXDESC_3_CTXT == RXDESC_3_CTXT
}

/// The descriptor holds one whole frame: first and last segment at once, no
/// error, no context descriptor.
pub open spec fn status_whole_frame(status: u32) -> bool {
    status_is_first(status) && status_is_last(status) && !status_has_error(status)
        && !status_is_context(status)
}

/// The packet length that a status word reports: its low 14 bits.
pub open spec fn status_packet_length(status: u32) -> u32 {
    (status & RXDESC_3_PL_MASK) >> RXDESC_3_PL_SHIFT
}

/// The status word after the buffer has been declared: buffer 2 invalid,
/// buffer 1 valid, every other bit as it was.
pub open spec fn status_with_buffer(status: u32) -> u32 {
    (status & !RXDESC_3_BUF2V) | RXDESC_3_BUF1V
}

/// The status word with which a descriptor is handed to the engine: the
/// buffer declared, then the ownership bit and interrupt on completion set.
pub open spec fn status_armed(status: u32) -> u32 {
    status_with_buffer(status) | RXDESC_3_OWN | RXDESC_3_IOC
}

/// Word 0 says that the engine stored a good timestamp.
pub open spec fn word_timestamp_valid(word: u32) -> bool {
    word & RXDESC_0_TIMESTAMP_VALID == RXDESC_0_TIMESTAMP_VALID
}

/// A receive descriptor as a value: its four words and what software keeps
/// beside them.
pub struct RxDescriptorView {
    /// The four hardware words.
    pub words: Seq<u32>,
    /// The tag given to the frame that was taken from the descriptor.
    pub packet_id: Option<PacketId>,
    /// The timestamp read when the frame was taken.
    pub timestamp: Option<Timestamp>,
}

impl RxDescriptorView {
    /// The status word.
    pub open spec fn status(self) -> u32 {
        self.words[RXDESC_STATUS_WORD as int]
    }

    /// The engine owns the descriptor.
    pub open spec fn is_owned(self) -> bool {
        status_owned(self.status())
    }

    /// Four words, and nothing kept beside them while the engine owns the
    /// descriptor.
    pub open spec fn wf(self) -> bool {
        &&& self.words.len() == 4
        &&& self.is_owned() ==> self.packet_id is None && self.timestamp is None
    }

    /// The descriptor after `buffer` has been bound to it: the address in
    /// word 0, the buffer declared in the status word.
    pub open spec fn with_buffer(self, buffer: u32) -> RxDescriptorView {
        RxDescriptorView {
            words: self.words.update(RXDESC_BUFFER_WORD as int, buffer).update(
                RXDESC_STATUS_WORD as int,
                status_with_buffer(self.status()),
            ),
            ..self
        }
    }

    /// The descriptor after it has been handed to the engine with `buffer`:
    /// the address in word 0, the status word armed, words 1 and 2 as they
    /// were, and nothing kept beside the words.
    pub open spec fn handed_over(self, buffer: u32) -> RxDescriptorView {
        RxDescriptorView {
            words: self.words.update(RXDESC_BUFFER_WORD as int, buffer).update(
                RXDESC_STATUS_WORD as int,
                status_armed(self.status()),
            ),
            packet_id: None,
            timestamp: None,
        }
    }

    /// The timestamp that the descriptor offers under `mode`: one is there
    /// exactly when timestamps are in use, the descriptor is a last segment
    /// and, where the engine has a bit for it, that bit is set.
    pub open spec fn read_timestamp(self, mode: TimestampMode) -> Option<Timestamp> {
        if self.timestamp_present(mode) {
            Some(Timestamp::of_words(self.words))
        } else {
            None
        }
    }

    /// Whether the descriptor offers a timestamp under `mode`.
    pub open spec fn timestamp_present(self, mode: TimestampMode) -> bool {
        match mode {
            TimestampMode::Disabled => false,
            TimestampMode::ValidBit => status_is_last(self.status()) && word_timestamp_valid(
                self.words[RXDESC_BUFFER_WORD as int],
            ),
            TimestampMode::LastSegment => status_is_last(self.status()),
        }
    }

    /// The descriptor after its frame has been taken under the tag
    /// `packet_id`: the words as they were, the tag kept, and the timestamp
    /// that the descriptor offers under `mode`.
    pub open spec fn taken(self, packet_id: Option<PacketId>, mode: TimestampMode)
        -> RxDescriptorView {
        RxDescriptorView { words: self.words, packet_id, timestamp: self.read_timestamp(mode) }
    }

    /// What taking a frame returns: nothing yet while the engine owns the
    /// descriptor, success for one whole frame, and a dropped frame for
    /// anything else.
    pub open spec fn take_result(self) -> Result<(), RxError> {
        if self.is_owned() {
            Err(RxError::WouldBlock)
        } else if status_whole_frame(self.status()) {
            Ok(())
        } else {
            Err(RxError::Truncated)
        }
    }

    /// The descriptor after an attempt to take a frame: untouched while the
    /// engine owns it, taken for one whole frame, and handed back to the
    /// engine with `buffer` for anything else.
    pub open spec fn after_take(
        self,
        packet_id: Option<PacketId>,
        buffer: u32,
        mode: TimestampMode,
    ) -> RxDescriptorView {
        match self.take_result() {
            Err(RxError::WouldBlock) => self,
            Ok(_) => self.taken(packet_id, mode),
            Err(RxError::Truncated) => self.handed_over(buffer),
        }
    }

    /// The length of the frame in the descriptor: 0 while the engine owns it.
    pub open spec fn frame_length(self) -> nat {
        if self.is_owned() {
            0
        } else {
            status_packet_length(self.status()) as nat
        }
    }
}

/// A receive descriptor: four hardware words, the tag of the frame last taken
/// from it, and the timestamp read with that frame.
#[derive(Clone, Copy, Debug)]
pub struct RxDescriptor {
    inner_raw: RawDescriptor,
    packet_id: Option<PacketId>,
    cached_timestamp: Option<Timestamp>,
}

impl View for RxDescriptor {
    type V = RxDescriptorView;

    closed spec fn view(&self) -> RxDescriptorView {
        RxDescriptorView {
            words: self.inner_raw@,
            packet_id: self.packet_id,
            timestamp: self.cached_timestamp,
        }
    }
}

impl Default for RxDescriptor {
    fn default() -> (desc: Self)
        ensures
            desc@.words == seq![0u32, 0u32, 0u32, 0u32],
            desc@.packet_id is None,
            desc@.timestamp is None,
            desc@.wf(),
    {
        Self::new()
    }
}

impl RxDescriptor {
    /// Creates a new [`RxDescriptor`]: every word zero, so software owns it,
    /// and nothing kept beside the words.
    pub fn new() -> (desc: Self)
        ensures
            desc@.words == seq![0u32, 0u32, 0u32, 0u32],
            desc@.packet_id is None,
            desc@.timestamp is None,
            desc@.wf(),
            !desc@.is_owned(),
    {
        let desc = Self { inner_raw: RawDescriptor::new(), packet_id: None, cached_timestamp: None };
        assert(!status_owned(0u32)) by (bit_vector);
        desc
    }

    /// Binds the buffer at address `buffer` to the descriptor and hands the
    /// descriptor to the engine.
    pub fn setup<B: Barrier>(&mut self, buffer: u32, barrier: &B)
        requires
            old(self)@.wf(),
        ensures
            final(self)@ == old(self)@.handed_over(buffer),
            final(self)@.wf(),
            final(self)@.is_owned(),
    {
        self.set_owned(buffer, barrier);
    }

    /// A copy of the four hardware words.
    pub fn raw(&self) -> (raw: RawDescriptor)
        ensures
            raw@ == self@.words,
    {
        self.inner_raw
    }

    /// Is owned by the DMA engine?
    pub fn is_owned(&self) -> (owned: bool)
        ensures
            owned == self@.is_owned(),
    {
        (self.inner_raw.read(RXDESC_STATUS_WORD) & RXDESC_3_OWN) == RXDESC_3_OWN
    }

    /// Pass ownership to the DMA engine.
    ///
    /// The buffer is bound first. A release fence keeps that write, and every
    /// write to the buffer before it, ahead of the write that sets the
    /// ownership bit. The barrier then pushes the ownership bit out of the
    /// core, and a last fence flushes it as early as can be. That the bit
    /// reads back as set is proved, not tested when the code runs. What
    /// software kept beside the words is dropped: it belongs to the frame
    /// that was in the descriptor.
    pub fn set_owned<B: Barrier>(&mut self, buffer: u32, barrier: &B)
        requires
            old(self)@.wf(),
        ensures
            final(self)@ == old(self)@.handed_over(buffer),
            final(self)@.wf(),
            final(self)@.is_owned(),
    {
        broadcast use RawDescriptor::lemma_four_words;

        self.packet_id = None;
        self.cached_timestamp = None;
        self.set_buffer(buffer);

        memory_fence(FenceOrder::Release);
        compiler_fence(FenceOrder::Release);

        let arm = |w: u32| -> (armed: u32)
            ensures
                armed == w | RXDESC_3_OWN | RXDESC_3_IOC,
            {
                w | RXDESC_3_OWN | RXDESC_3_IOC
            };
        self.inner_raw.modify(RXDESC_STATUS_WORD, arm);

        barrier.data_sync();

        proof {
            let status = old(self)@.status();
            assert(status_owned(status_armed(status))) by (bit_vector);
            assert(final(self)@.words =~= old(self)@.handed_over(buffer).words);
        }

        memory_fence(FenceOrder::SeqCst);
    }

    /// Configure the buffer: its address in word 0, buffer 1 valid and
    /// buffer 2 invalid in the status word. The length of the buffer has no
    /// place in a receive descriptor: the engine knows it from a register.
    pub fn set_buffer(&mut self, buffer: u32)
        ensures
            final(self)@ == old(self)@.with_buffer(buffer),
    {
        broadcast use RawDescriptor::lemma_four_words;

        self.inner_raw.write(RXDESC_BUFFER_WORD, buffer);
        let status = self.inner_raw.read(RXDESC_STATUS_WORD);
        self.inner_raw.write(RXDESC_STATUS_WORD, (status & !RXDESC_3_BUF2V) | RXDESC_3_BUF1V);
    }

    /// Has the engine flagged an error in the frame?
    pub fn has_error(&self) -> (error: bool)
        ensures
            error == status_has_error(self@.status()),
    {
        self.inner_raw.read(RXDESC_STATUS_WORD) & RXDESC_3_ES == RXDESC_3_ES
    }

    /// Does the descriptor hold the first segment of a frame?
    pub fn is_first(&self) -> (first: bool)
        ensures
            first == status_is_first(self@.status()),
    {
        self.inner_raw.read(RXDESC_STATUS_WORD) & RXDESC_3_FD == RXDESC_3_FD
    }

    /// Does the descriptor hold the last segment of a frame?
    pub fn is_last(&self) -> (last: bool)
        ensures
            last == status_is_last(self@.status()),
    {
        self.inner_raw.read(RXDESC_STATUS_WORD) & RXDESC_3_LD == RXDESC_3_LD
    }

    /// Is this a context descriptor?
    pub fn is_context(&self) -> (context: bool)
        ensures
            context == status_is_context(self@.status()),
    {
        self.inner_raw.read(RXDESC_STATUS_WORD) & RXDESC_3_CTXT == RXDESC_3_CTXT
    }

    /// Takes the frame that the engine left in the descriptor.
    ///
    /// While the engine owns the descriptor nothing has arrived: the call
    /// fails with `WouldBlock` and changes nothing. One whole frame is taken:
    /// the tag `packet_id` is kept with it, and the timestamp that the
    /// descriptor offers under `mode`. Anything else (a frame in several
    /// segments, a context descriptor, an error) is dropped: the descriptor
    /// goes back to the engine at once, with the buffer at address `buffer`,
    /// and the call fails with `Truncated`.
    pub fn take_received<B: Barrier>(
        &mut self,
        packet_id: Option<PacketId>,
        buffer: u32,
        mode: TimestampMode,
        barrier: &B,
    ) -> (result: Result<(), RxError>)
        requires
            old(self)@.wf(),
        ensures
            result == old(self)@.take_result(),
            final(self)@ == old(self)@.after_take(packet_id, buffer, mode),
            final(self)@.wf(),
            result == Err::<(), RxError>(RxError::WouldBlock) <==> old(self)@.is_owned(),
            result == Err::<(), RxError>(RxError::Truncated) ==> final(self)@.is_owned(),
            result is Ok ==> !final(self)@.is_owned() && final(self)@.packet_id == packet_id,
            result is Ok ==> (final(self)@.timestamp is Some <==> old(self)@.timestamp_present(
                mode,
            )),
            !(result is Ok) ==> final(self)@.timestamp is None,
    {
        if self.is_owned() {
            Err(RxError::WouldBlock)
        } else if self.is_first() && self.is_last() && !self.has_error() && !self.is_context() {
            // Reads of the frame must not move ahead of the read of the
            // ownership bit.
            compiler_fence(FenceOrder::Acquire);

            self.packet_id = packet_id;
            self.attach_timestamp(mode);

            Ok(())
        } else {
            self.set_owned(buffer, barrier);
            Err(RxError::Truncated)
        }
    }

    /// The length of the frame in the descriptor: 0 while the engine owns
    /// it, else the 14 bits of the packet length.
    pub fn frame_length(&self) -> (length: usize)
        ensures
            length == self@.frame_length(),
            length <= RXDESC_3_PL_MASK,
    {
        if self.is_owned() {
            0
        } else {
            let status = self.inner_raw.read(RXDESC_STATUS_WORD);
            assert(((status & RXDESC_3_PL_MASK) >> RXDESC_3_PL_SHIFT) <= RXDESC_3_PL_MASK)
                by (bit_vector);
            ((status & RXDESC_3_PL_MASK) >> RXDESC_3_PL_SHIFT) as usize
        }
    }

    /// The tag of the frame last taken from the descriptor.
    pub fn packet_id(&self) -> (id: Option<&PacketId>)
        ensures
            id is Some == self@.packet_id is Some,
            id is Some ==> *id->0 == self@.packet_id->0,
    {
        self.packet_id.as_ref()
    }

    /// Get the timestamp that the descriptor offers under `mode`, if any.
    pub fn read_timestamp(&self, mode: TimestampMode) -> (stamp: Option<Timestamp>)
        ensures
            stamp == self@.read_timestamp(mode),
            stamp is Some <==> self@.timestamp_present(mode),
    {
        let is_valid = match mode {
            TimestampMode::Disabled => false,
            TimestampMode::ValidBit => self.inner_raw.read(RXDESC_BUFFER_WORD)
                & RXDESC_0_TIMESTAMP_VALID == RXDESC_0_TIMESTAMP_VALID,
            // The engine has no bit that says so.
            TimestampMode::LastSegment => true,
        };

        let timestamp = Timestamp::from_descriptor(&self.inner_raw);

        if is_valid && self.is_last() {
            Some(timestamp)
        } else {
            None
        }
    }

    /// Keeps the timestamp that the descriptor offers under `mode`, or none.
    pub fn attach_timestamp(&mut self, mode: TimestampMode)
        ensures
            final(self)@.words == old(self)@.words,
            final(self)@.packet_id == old(self)@.packet_id,
            final(self)@.timestamp == old(self)@.read_timestamp(mode),
    {
        self.cached_timestamp = self.read_timestamp(mode);
    }

    /// The timestamp read with the frame last taken from the descriptor.
    pub fn timestamp(&self) -> (stamp: Option<&Timestamp>)
        ensures
            stamp is Some == self@.timestamp is Some,
            stamp is Some ==> *stamp->0 == self@.timestamp->0,
    {
        self.cached_timestamp.as_ref()
    }

    /// What the engine does when it is done with the descriptor: it writes
    /// all four words. The engine acts only on a descriptor that it owns: on
    /// one that software holds the call changes nothing and returns `false`.
    ///
    /// Software never calls this on a live ring. It is the engine's half of
    /// the protocol, for a simulation of it.
    pub fn write_back(&mut self, words: [u32; 4]) -> (accepted: bool)
        requires
            old(self)@.wf(),
        ensures
            accepted == old(self)@.is_owned(),
            accepted ==> final(self)@ == (RxDescriptorView { words: words@, ..old(self)@ }),
            !accepted ==> final(self)@ == old(self)@,
            final(self)@.wf(),
    {
        if self.is_owned() {
            self.inner_raw = RawDescriptor::from_words(words);
            true
        } else {
            false
        }
    }
}

} // verus!

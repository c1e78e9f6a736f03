//! The transmit descriptor: what its words mean, and how it changes hands.

use crate::dma::fence::{compiler_fence, memory_fence, Barrier, FenceOrder};
use crate::dma::raw_descriptor::RawDescriptor;
use crate::dma::{PacketId, TxError};
use crate::ptp::{Timestamp, TimestampMode};
use vstd::prelude::*;

verus! {

/// Owned by the engine.
pub const TXDESC_3_OWN: u32 = 0x8000_0000;

/// Context descriptor.
pub const TXDESC_3_CTXT: u32 = 0x4000_0000;

/// First descriptor of a frame.
pub const TXDESC_3_FD: u32 = 0x2000_0000;

/// Last descriptor of a frame.
pub const TXDESC_3_LD: u32 = 0x1000_0000;

/// Timestamp status: the engine stored a timestamp on write-back.
pub const TXDESC_3_TTSS: u32 = 0x0002_0000;

/// Error summary, on write-back.
pub const TXDESC_3_ES: u32 = 0x0000_8000;

/// Mask of the frame length in the status word: 15 bits.
pub const TXDESC_3_FL_MASK: u32 = 0x7FFF;

/// Interrupt on completion.
pub const TXDESC_2_IOC: u32 = 0x8000_0000;

/// Transmit timestamp enable.
pub const TXDESC_2_TTSE: u32 = 0x4000_0000;

/// Mask of the length of buffer 1: 14 bits.
pub const TXDESC_2_B1L_MASK: u32 = 0x3FFF;

/// Index of the word that holds the address of buffer 1.
pub const TXDESC_BUFFER_WORD: usize = 0;

/// Index of the word that holds the address of buffer 2, which is not used.
pub const TXDESC_BUFFER2_WORD: usize = 1;

/// Index of the word that holds the buffer length and the control bits.
pub const TXDESC_CONTROL_WORD: usize = 2;

/// Index of the word that holds ownership and status.
pub const TXDESC_STATUS_WORD: usize = 3;

/// The engine owns a descriptor with this status word.
pub open spec fn status_owned(status: u32) -> bool {
    status & TXDESC_3_OWN == TXDESC_3_OWN
}

/// The engine flagged an error when it wrote the descriptor back.
pub open spec fn status_has_error(status: u32) -> bool {
    status & TXDESC_3_ES == TXDESC_3_ES
}

/// The descriptor held the last segment of a frame.
pub open spec fn status_is_last(status: u32) -> bool {
    status & TXDESC_3_LD == TXDESC_3_LD
}

/// The engine stored a timestamp when it wrote the descriptor back.
pub open spec fn status_timestamped(status: u32) -> bool {
    status & TXDESC_3_TTSS == TXDESC_3_TTSS
}

/// The control word of a frame of `length` bytes: interrupt on completion,
/// the length of buffer 1, and the request for a timestamp where timestamps
/// are in use.
pub open spec fn control_word(length: u32, mode: TimestampMode) -> u32 {
    if mode == TimestampMode::Disabled {
        TXDESC_2_IOC | length
    } else {
        TXDESC_2_IOC | TXDESC_2_TTSE | length
    }
}

/// The status word of a frame of `length` bytes before it is handed over:
/// first and last segment at once, the frame length, and every bit that the
/// engine writes back clear.
pub open spec fn status_prepared(length: u32) -> u32 {
    TXDESC_3_FD | TXDESC_3_LD | length
}

/// The status word with which the frame is handed to the engine.
pub open spec fn status_submitted(length: u32) -> u32 {
    status_prepared(length) | TXDESC_3_OWN
}

/// A transmit descriptor as a value: its four words and what software keeps
/// beside them.
pub struct TxDescriptorView {
    /// The four hardware words.
    pub words: Seq<u32>,
    /// The tag of the frame that the descriptor carries, or carried last.
    pub packet_id: Option<PacketId>,
    /// The timestamp read when the frame was seen to be sent.
    pub timestamp: Option<Timestamp>,
}

impl TxDescriptorView {
    /// The status word.
    pub open spec fn status(self) -> u32 {
        self.words[TXDESC_STATUS_WORD as int]
    }

    /// The engine owns the descriptor.
    pub open spec fn is_owned(self) -> bool {
        status_owned(self.status())
    }

    /// Four words, and no timestamp kept while the engine owns the
    /// descriptor.
    pub open spec fn wf(self) -> bool {
        &&& self.words.len() == 4
        &&& self.is_owned() ==> self.timestamp is None
    }

    /// The descriptor after a frame of `length` bytes at address `buffer`
    /// has been handed to the engine under the tag `packet_id`.
    pub open spec fn submitted(
        self,
        buffer: u32,
        length: u32,
        packet_id: Option<PacketId>,
        mode: TimestampMode,
    ) -> TxDescriptorView {
        TxDescriptorView {
            words: seq![buffer, 0u32, control_word(length, mode), status_submitted(length)],
            packet_id,
            timestamp: None,
        }
    }

    /// Whether the descriptor offers a timestamp under `mode`: timestamps
    /// are in use, the descriptor was a last segment, no error is flagged
    /// and, where the engine has a bit for it, that bit is set.
    pub open spec fn timestamp_present(self, mode: TimestampMode) -> bool {
        &&& !status_has_error(self.status())
        &&& status_is_last(self.status())
        &&& match mode {
            TimestampMode::Disabled => false,
            TimestampMode::ValidBit => status_timestamped(self.status()),
            TimestampMode::LastSegment => true,
        }
    }

    /// The timestamp that the descriptor offers under `mode`.
    pub open spec fn read_timestamp(self, mode: TimestampMode) -> Option<Timestamp> {
        if self.timestamp_present(mode) {
            Some(Timestamp::of_words(self.words))
        } else {
            None
        }
    }

    /// The descriptor after the engine was seen to be done with it: the
    /// words and the tag as they were, and the timestamp that the descriptor
    /// offers under `mode`.
    pub open spec fn completed(self, mode: TimestampMode) -> TxDescriptorView {
        TxDescriptorView { timestamp: self.read_timestamp(mode), ..self }
    }

    /// What a look at the descriptor returns to a caller that asks for the
    /// frame tagged `packet_id`: nothing yet while the engine owns the
    /// descriptor; an error where the engine flagged one; else the timestamp
    /// that the descriptor offers under `mode`, handed out only where the
    /// descriptor carries that tag.
    pub open spec fn completion(self, packet_id: Option<PacketId>, mode: TimestampMode) -> Result<
        Option<Timestamp>,
        TxError,
    > {
        if self.is_owned() {
            Err(TxError::WouldBlock)
        } else if status_has_error(self.status()) {
            Err(TxError::Failed)
        } else if self.packet_id == packet_id {
            Ok(self.read_timestamp(mode))
        } else {
            Ok(None)
        }
    }

    /// The descriptor after such a look: untouched while the engine owns it,
    /// else completed.
    pub open spec fn after_completion(self, mode: TimestampMode) -> TxDescriptorView {
        if self.is_owned() {
            self
        } else {
            self.completed(mode)
        }
    }
}

/// A transmit descriptor: four hardware words, the tag of the frame it
/// carries, and the timestamp read when that frame was sent.
#[derive(Clone, Copy, Debug)]
pub struct TxDescriptor {
    inner_raw: RawDescriptor,
    packet_id: Option<PacketId>,
    cached_timestamp: Option<Timestamp>,
}

impl View for TxDescriptor {
    type V = TxDescriptorView;

    closed spec fn view(&self) -> TxDescriptorView {
        TxDescriptorView {
            words: self.inner_raw@,
            packet_id: self.packet_id,
            timestamp: self.cached_timestamp,
        }
    }
}

impl Default for TxDescriptor {
    fn default() -> (desc: Self)
        ensures
            desc@.words == seq![0u32, 0u32, 0u32, 0u32],
            desc@.packet_id is None,
            desc@.timestamp is None,
            desc@.wf(),
    {
        Self::new()
    }
}

impl TxDescriptor {
    /// Creates a new [`TxDescriptor`]: every word zero, so software owns it
    /// and it carries no frame.
    pub fn new() -> (desc: Self)
        ensures
            desc@.words == seq![0u32, 0u32, 0u32, 0u32],
            desc@.packet_id is None,
            desc@.timestamp is None,
            desc@.wf(),
            !desc@.is_owned(),
    {
        let desc = Self { inner_raw: RawDescriptor::new(), packet_id: None, cached_timestamp: None };
        assert(!status_owned(0u32)) by (bit_vector);
        desc
    }

    /// A copy of the four hardware words.
    pub fn raw(&self) -> (raw: RawDescriptor)
        ensures
            raw@ == self@.words,
    {
        self.inner_raw
    }

    /// Is owned by the DMA engine?
    pub fn is_owned(&self) -> (owned: bool)
        ensures
            owned == self@.is_owned(),
    {
        (self.inner_raw.read(TXDESC_STATUS_WORD) & TXDESC_3_OWN) == TXDESC_3_OWN
    }

    /// Has the engine flagged an error on write-back?
    pub fn has_error(&self) -> (error: bool)
        ensures
            error == status_has_error(self@.status()),
    {
        self.inner_raw.read(TXDESC_STATUS_WORD) & TXDESC_3_ES == TXDESC_3_ES
    }

    /// Did the descriptor hold the last segment of a frame?
    pub fn is_last(&self) -> (last: bool)
        ensures
            last == status_is_last(self@.status()),
    {
        self.inner_raw.read(TXDESC_STATUS_WORD) & TXDESC_3_LD == TXDESC_3_LD
    }

    /// Hands a frame to the engine: `length` bytes at address `buffer`, under
    /// the tag `packet_id`.
    ///
    /// While the engine owns the descriptor the call fails with `WouldBlock`
    /// and changes nothing. Else every word is written anew, so nothing of an
    /// earlier completion is left, and ownership passes as on the receive
    /// side: fence, ownership bit, barrier, fence.
    pub fn send<B: Barrier>(
        &mut self,
        buffer: u32,
        length: usize,
        packet_id: Option<PacketId>,
        mode: TimestampMode,
        barrier: &B,
    ) -> (result: Result<(), TxError>)
        requires
            old(self)@.wf(),
            length <= TXDESC_2_B1L_MASK,
        ensures
            final(self)@.wf(),
            old(self)@.is_owned() ==> {
                &&& result == Err::<(), TxError>(TxError::WouldBlock)
                &&& final(self)@ == old(self)@
            },
            !old(self)@.is_owned() ==> {
                &&& result == Ok::<(), TxError>(())
                &&& final(self)@ == old(self)@.submitted(buffer, length as u32, packet_id, mode)
                &&& final(self)@.is_owned()
            },
    {
        broadcast use RawDescriptor::lemma_four_words;

        if self.is_owned() {
            return Err(TxError::WouldBlock);
        }
        let length_bits: u32 = length as u32;
        let control: u32 = match mode {
            TimestampMode::Disabled => TXDESC_2_IOC | length_bits,
            _ => TXDESC_2_IOC | TXDESC_2_TTSE | length_bits,
        };

        self.packet_id = packet_id;
        self.cached_timestamp = None;
        self.inner_raw.write(TXDESC_BUFFER_WORD, buffer);
        self.inner_raw.write(TXDESC_BUFFER2_WORD, 0);
        self.inner_raw.write(TXDESC_CONTROL_WORD, control);
        self.inner_raw.write(TXDESC_STATUS_WORD, TXDESC_3_FD | TXDESC_3_LD | length_bits);

        memory_fence(FenceOrder::Release);
        compiler_fence(FenceOrder::Release);

        let own = |w: u32| -> (owned: u32)
            ensures
                owned == w | TXDESC_3_OWN,
            {
                w | TXDESC_3_OWN
            };
        self.inner_raw.modify(TXDESC_STATUS_WORD, own);

        barrier.data_sync();

        proof {
            assert(status_owned(status_submitted(length_bits))) by (bit_vector);
            assert(final(self)@.words =~= old(self)@.submitted(
                buffer,
                length_bits,
                packet_id,
                mode,
            ).words);
        }

        memory_fence(FenceOrder::SeqCst);
        Ok(())
    }

    /// Looks whether the engine is done with the frame, for a caller that
    /// asks for the frame tagged `packet_id`.
    ///
    /// While the engine owns the descriptor the call fails with `WouldBlock`
    /// and changes nothing. Once the engine has let go, the descriptor is
    /// software's again and free for the next frame. An error that the engine
    /// flagged comes back as `Failed`. Else the timestamp that the descriptor
    /// offers under `mode` is kept, and handed out where the descriptor
    /// carries the tag asked for.
    pub fn take_completed(&mut self, packet_id: Option<PacketId>, mode: TimestampMode) -> (result:
        Result<Option<Timestamp>, TxError>)
        requires
            old(self)@.wf(),
        ensures
            result == old(self)@.completion(packet_id, mode),
            final(self)@ == old(self)@.after_completion(mode),
            final(self)@.wf(),
            old(self)@.is_owned() <==> result == Err::<Option<Timestamp>, TxError>(
                TxError::WouldBlock,
            ),
            !old(self)@.is_owned() ==> !final(self)@.is_owned(),
    {
        if self.is_owned() {
            return Err(TxError::WouldBlock);
        }
        // Reads of what the engine wrote back must not move ahead of the
        // read of the ownership bit.
        compiler_fence(FenceOrder::Acquire);

        self.cached_timestamp = self.read_timestamp(mode);
        if self.has_error() {
            Err(TxError::Failed)
        } else if Self::same_tag(self.packet_id, packet_id) {
            Ok(self.cached_timestamp)
        } else {
            Ok(None)
        }
    }

    /// Are two tags the same tag?
    fn same_tag(a: Option<PacketId>, b: Option<PacketId>) -> (same: bool)
        ensures
            same == (a == b),
    {
        match (a, b) {
            (None, None) => true,
            (Some(x), Some(y)) => x.0 == y.0,
            _ => false,
        }
    }

    /// Get the timestamp that the descriptor offers under `mode`, if any.
    pub fn read_timestamp(&self, mode: TimestampMode) -> (stamp: Option<Timestamp>)
        ensures
            stamp == self@.read_timestamp(mode),
            stamp is Some <==> self@.timestamp_present(mode),
    {
        let status = self.inner_raw.read(TXDESC_STATUS_WORD);
        let is_valid = match mode {
            TimestampMode::Disabled => false,
            TimestampMode::ValidBit => status & TXDESC_3_TTSS == TXDESC_3_TTSS,
            // The engine has no bit that says so.
            TimestampMode::LastSegment => true,
        };

        let timestamp = Timestamp::from_descriptor(&self.inner_raw);

        if is_valid && self.is_last() && !self.has_error() {
            Some(timestamp)
        } else {
            None
        }
    }

    /// The tag of the frame that the descriptor carries, or carried last.
    pub fn packet_id(&self) -> (id: Option<&PacketId>)
        ensures
            id is Some == self@.packet_id is Some,
            id is Some ==> *id->0 == self@.packet_id->0,
    {
        self.packet_id.as_ref()
    }

    /// The timestamp read when the frame last sent was seen to be done.
    pub fn timestamp(&self) -> (stamp: Option<&Timestamp>)
        ensures
            stamp is Some == self@.timestamp is Some,
            stamp is Some ==> *stamp->0 == self@.timestamp->0,
    {
        self.cached_timestamp.as_ref()
    }

    /// What the engine does when it is done with the descriptor: it writes
    /// all four words. The engine acts only on a descriptor that it owns: on
    /// one that software holds the call changes nothing and returns `false`.
    ///
    /// Software never calls this on a live ring. It is the engine's half of
    /// the protocol, for a simulation of it.
    pub fn write_back(&mut self, words: [u32; 4]) -> (accepted: bool)
        requires
            old(self)@.wf(),
        ensures
            accepted == old(self)@.is_owned(),
            accepted ==> final(self)@ == (TxDescriptorView { words: words@, ..old(self)@ }),
            !accepted ==> final(self)@ == old(self)@,
            final(self)@.wf(),
    {
        if self.is_owned() {
            self.inner_raw = RawDescriptor::from_words(words);
            true
        } else {
            false
        }
    }
}

} // verus!

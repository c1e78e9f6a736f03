//! Hardware timestamps.
//!
//! The engine stores a timestamp in two words of the descriptor that it
//! writes back: the seconds in word 1, the sub-second count in the low 31
//! bits of word 2. Whether it stored one is said by status bits, which the
//! descriptors read.

use crate::dma::raw_descriptor::RawDescriptor;
use vstd::prelude::*;

verus! {

/// The bits of the low timestamp word that count sub-second ticks.
pub const SUBSECOND_MASK: u32 = 0x7FFF_FFFF;

/// Index of the descriptor word that holds the seconds of a timestamp.
pub const TIMESTAMP_HIGH_WORD: usize = 1;

/// Index of the descriptor word that holds the sub-second ticks.
pub const TIMESTAMP_LOW_WORD: usize = 2;

/// How a descriptor shows that the engine stored a timestamp in it.
#[derive(Clone, Copy, Debug, PartialEq, Eq, Structural)]
pub enum TimestampMode {
    /// Timestamps are not in use: none is ever read.
    Disabled,
    /// The engine sets a bit of its own when the timestamp is good.
    ValidBit,
    /// The engine has no such bit: every last segment carries a timestamp.
    LastSegment,
}

/// One sample of the hardware clock: whole seconds and a sub-second count of
/// 31 bits.
#[derive(Clone, Copy, Debug, PartialEq, Eq, Structural)]
pub struct Timestamp {
    seconds: u32,
    subseconds: u32,
}

/// The sub-second count that a low timestamp word holds.
pub open spec fn subseconds_of(low: u32) -> u32 {
    low & SUBSECOND_MASK
}

impl Timestamp {
    /// The whole seconds, for use in contracts.
    pub closed spec fn spec_seconds(self) -> u32 {
        self.seconds
    }

    /// The sub-second count, for use in contracts.
    pub closed spec fn spec_subseconds(self) -> u32 {
        self.subseconds
    }

    /// The timestamp that the two hardware words `high` and `low` hold: the
    /// seconds are `high`, the sub-second count is the low 31 bits of `low`.
    pub closed spec fn of_parts(high: u32, low: u32) -> Timestamp {
        Timestamp { seconds: high, subseconds: subseconds_of(low) }
    }

    /// The timestamp that the words of a descriptor hold.
    pub open spec fn of_words(words: Seq<u32>) -> Timestamp {
        Timestamp::of_parts(words[TIMESTAMP_HIGH_WORD as int], words[TIMESTAMP_LOW_WORD as int])
    }

    /// What the timestamp of two hardware words holds, and that two
    /// timestamps which hold the same are the same.
    pub broadcast proof fn lemma_of_parts(high: u32, low: u32)
        ensures
            (#[trigger] Timestamp::of_parts(high, low)).spec_seconds() == high,
            Timestamp::of_parts(high, low).spec_subseconds() == subseconds_of(low),
            Timestamp::of_parts(high, low) == Timestamp::of_parts(high, subseconds_of(low)),
    {
        assert(subseconds_of(subseconds_of(low)) == subseconds_of(low)) by (bit_vector);
    }

    /// Reads a timestamp from its two hardware words.
    pub fn from_parts(high: u32, low: u32) -> (stamp: Timestamp)
        ensures
            stamp == Timestamp::of_parts(high, low),
            stamp.spec_seconds() == high,
            stamp.spec_subseconds() == subseconds_of(low),
    {
        assert(low & SUBSECOND_MASK <= SUBSECOND_MASK) by (bit_vector);
        Timestamp { seconds: high, subseconds: low & SUBSECOND_MASK }
    }

    /// Reads the timestamp that a descriptor holds, whether or not the engine
    /// has stored one: the caller decides from the status bits.
    pub fn from_descriptor(desc: &RawDescriptor) -> (stamp: Timestamp)
        ensures
            stamp == Timestamp::of_words(desc@),
    {
        Timestamp::from_parts(desc.read(TIMESTAMP_HIGH_WORD), desc.read(TIMESTAMP_LOW_WORD))
    }

    /// The whole seconds.
    pub fn seconds(&self) -> (s: u32)
        ensures
            s == self.spec_seconds(),
    {
        self.seconds
    }

    /// The sub-second count, below 2^31.
    pub fn subseconds(&self) -> (s: u32)
        ensures
            s == self.spec_subseconds(),
            s <= SUBSECOND_MASK,
    {
        proof {
            use_type_invariant(self);
        }
        self.subseconds
    }

    #[verifier::type_invariant]
    closed spec fn in_range(self) -> bool {
        self.subseconds <= SUBSECOND_MASK
    }
}

} // verus!

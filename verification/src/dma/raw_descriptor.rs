//! The four control words of one DMA descriptor.

use vstd::prelude::*;

verus! {

/// Number of 32-bit words in a descriptor.
pub const DESC_WORDS: usize = 4;

/// One hardware control block: four 32-bit words and nothing else.
///
/// The words carry no meaning at this level. The receive and transmit
/// descriptors give them one.
#[derive(Clone, Copy, Debug)]
pub struct RawDescriptor {
    words: [u32; 4],
}

impl View for RawDescriptor {
    type V = Seq<u32>;

    closed spec fn view(&self) -> Seq<u32> {
        self.words@
    }
}

impl RawDescriptor {
    /// Every descriptor has four words.
    pub broadcast proof fn lemma_four_words(self)
        ensures
            #[trigger] self@.len() == DESC_WORDS,
    {
    }

    /// A descriptor with every word zero.
    pub fn new() -> (desc: Self)
        ensures
            desc@ == seq![0u32, 0u32, 0u32, 0u32],
    {
        let desc = RawDescriptor { words: [0, 0, 0, 0] };
        assert(desc@ =~= seq![0u32, 0u32, 0u32, 0u32]);
        desc
    }

    /// A descriptor holding the given words.
    pub fn from_words(words: [u32; 4]) -> (desc: Self)
        ensures
            desc@ == words@,
    {
        RawDescriptor { words }
    }

    /// The word at `index`.
    pub fn read(&self, index: usize) -> (word: u32)
        requires
            index < DESC_WORDS,
        ensures
            word == self@[index as int],
    {
        self.words[index]
    }

    /// Stores `value` in the word at `index` and leaves the others alone.
    pub fn write(&mut self, index: usize, value: u32)
        requires
            index < DESC_WORDS,
        ensures
            final(self)@ == old(self)@.update(index as int, value),
    {
        self.words[index] = value;
    }

    /// Replaces the word at `index` by what `f` makes of it.
    pub fn modify<F: FnOnce(u32) -> u32>(&mut self, index: usize, f: F)
        requires
            index < DESC_WORDS,
            f.requires((old(self)@[index as int],)),
        ensures
            f.ensures((old(self)@[index as int],), final(self)@[index as int]),
            final(self)@ == old(self)@.update(index as int, final(self)@[index as int]),
    {
        let word = self.words[index];
        self.words[index] = f(word);
    }
}

} // verus!

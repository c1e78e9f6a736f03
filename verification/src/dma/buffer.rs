//! Frame buffers.

use vstd::prelude::*;
use vstd::slice::slice_subrange;

verus! {

/// The longest frame that one descriptor can describe: the length fields of
/// a descriptor have 14 bits.
pub const MAX_FRAME_LENGTH: usize = 0x3FFF;

/// A frame buffer as a value: where the engine finds it, and its bytes.
pub struct BufferView {
    /// The address that is written into a descriptor.
    pub address: u32,
    /// The bytes.
    pub data: Seq<u8>,
}

/// `data` with its first bytes replaced by `frame`.
pub open spec fn overwritten(data: Seq<u8>, frame: Seq<u8>) -> Seq<u8>
    recommends
        frame.len() <= data.len(),
{
    frame + data.skip(frame.len() as int)
}

/// One frame buffer of fixed size, bound to one slot of a ring for as long
/// as the ring lives.
#[derive(Debug)]
pub struct Buffer {
    address: u32,
    data: Vec<u8>,
}

impl View for Buffer {
    type V = BufferView;

    closed spec fn view(&self) -> BufferView {
        BufferView { address: self.address, data: self.data@ }
    }
}

impl Buffer {
    /// A buffer of `size` zero bytes that the engine finds at `address`.
    pub fn new(address: u32, size: usize) -> (buffer: Buffer)
        ensures
            buffer@.address == address,
            buffer@.data == Seq::new(size as nat, |i: int| 0u8),
    {
        let mut data: Vec<u8> = Vec::new();
        let mut i: usize = 0;
        while i < size
            invariant
                i <= size,
                data@ == Seq::new(i as nat, |j: int| 0u8),
            decreases size - i,
        {
            data.push(0);
            i = i + 1;
            assert(data@ =~= Seq::new(i as nat, |j: int| 0u8));
        }
        Buffer { address, data }
    }

    /// The buffer that holds `data` and that the engine finds at `address`.
    pub fn from_vec(address: u32, data: Vec<u8>) -> (buffer: Buffer)
        ensures
            buffer@.address == address,
            buffer@.data == data@,
    {
        Buffer { address, data }
    }

    /// The address that is written into a descriptor.
    pub fn address(&self) -> (address: u32)
        ensures
            address == self@.address,
    {
        self.address
    }

    /// The size of the buffer in bytes.
    pub fn len(&self) -> (len: usize)
        ensures
            len == self@.data.len(),
    {
        self.data.len()
    }

    /// All bytes of the buffer.
    pub fn as_slice(&self) -> (bytes: &[u8])
        ensures
            bytes@ == self@.data,
    {
        self.data.as_slice()
    }

    /// The first `len` bytes of the buffer.
    pub fn prefix(&self, len: usize) -> (bytes: &[u8])
        requires
            len <= self@.data.len(),
        ensures
            bytes@ == self@.data.take(len as int),
    {
        slice_subrange(self.data.as_slice(), 0, len)
    }

    /// Copies `frame` to the start of the buffer. The bytes behind it stay.
    pub fn fill(&mut self, frame: &[u8])
        requires
            frame@.len() <= old(self)@.data.len(),
        ensures
            final(self)@.address == old(self)@.address,
            final(self)@.data == overwritten(old(self)@.data, frame@),
            final(self)@.data.len() == old(self)@.data.len(),
    {
        let n = frame.len();
        let mut i: usize = 0;
        while i < n
            invariant
                n == frame@.len(),
                n <= self.data@.len(),
                i <= n,
                self.address == old(self).address,
                self.data@.len() == old(self).data@.len(),
                forall|j: int| 0 <= j < i ==> self.data@[j] == frame@[j],
                forall|j: int| i <= j < self.data@.len() ==> self.data@[j] == old(self).data@[j],
            decreases n - i,
        {
            self.data[i] = frame[i];
            i = i + 1;
        }
        assert(self.data@ =~= overwritten(old(self)@.data, frame@));
    }
}

} // verus!

//! Positions in a ring, and the checks that every ring makes of its parts.

use crate::dma::buffer::{Buffer, BufferView, MAX_FRAME_LENGTH};
use crate::dma::InitError;
use vstd::prelude::*;

verus! {

/// The slot after `slot` in a ring of `capacity` slots: the first slot
/// follows the last.
pub open spec fn next_slot(slot: int, capacity: int) -> int {
    if slot + 1 >= capacity {
        0
    } else {
        slot + 1
    }
}

/// The slot before `slot` in a ring of `capacity` slots: the last slot
/// precedes the first.
pub open spec fn previous_slot(slot: int, capacity: int) -> int {
    if slot == 0 {
        capacity - 1
    } else {
        slot - 1
    }
}

/// The slot that lies `steps` slots after `from`, for at most `capacity`
/// steps.
pub open spec fn slot_after(from: int, steps: int, capacity: int) -> int {
    if from + steps < capacity {
        from + steps
    } else {
        from + steps - capacity
    }
}

/// How many steps lead from `from` forward to `to`.
pub open spec fn distance(from: int, to: int, capacity: int) -> int {
    if to >= from {
        to - from
    } else {
        to + capacity - from
    }
}

/// The slot after `slot`.
pub fn advance(slot: usize, capacity: usize) -> (next: usize)
    requires
        slot < capacity,
    ensures
        next == next_slot(slot as int, capacity as int),
        next < capacity,
{
    if slot + 1 >= capacity {
        0
    } else {
        slot + 1
    }
}

/// The buffers fit a ring: there is one, none is empty or longer than a
/// descriptor can describe, and all have the size of the first.
pub open spec fn uniform(buffers: Seq<BufferView>) -> bool {
    &&& buffers.len() > 0
    &&& 0 < buffers[0].data.len() <= MAX_FRAME_LENGTH
    &&& forall|i: int|
        0 <= i < buffers.len() ==> (#[trigger] buffers[i]).data.len() == buffers[0].data.len()
}

/// What is wrong with the parts of a ring, if anything: the counts differ,
/// there are fewer than `least` slots, or the buffers do not fit.
pub open spec fn init_error(descriptors: nat, buffers: Seq<BufferView>, least: nat) -> Option<
    InitError,
> {
    if descriptors != buffers.len() {
        Some(InitError::Mismatch)
    } else if descriptors < least {
        Some(InitError::TooFewSlots)
    } else if !uniform(buffers) {
        Some(InitError::BufferSize)
    } else {
        None
    }
}

/// The views of `buffers`, slot by slot.
pub open spec fn buffer_views(buffers: Seq<Buffer>) -> Seq<BufferView> {
    buffers.map_values(|b: Buffer| b@)
}

/// Checks the parts of a ring of at least `least` slots, with `least` at
/// least 1.
pub fn check_parts(descriptors: usize, buffers: &Vec<Buffer>, least: usize) -> (result: Result<
    (),
    InitError,
>)
    requires
        least >= 1,
    ensures
        result is Ok <==> init_error(descriptors as nat, buffer_views(buffers@), least as nat)
            is None,
        result is Err ==> Some(result->Err_0) == init_error(
            descriptors as nat,
            buffer_views(buffers@),
            least as nat,
        ),
{
    if descriptors != buffers.len() {
        return Err(InitError::Mismatch);
    }
    if descriptors < least {
        return Err(InitError::TooFewSlots);
    }
    let size = buffers[0].len();
    if size == 0 || size > MAX_FRAME_LENGTH {
        return Err(InitError::BufferSize);
    }
    let mut i: usize = 1;
    while i < buffers.len()
        invariant
            1 <= i <= buffers.len(),
            descriptors == buffers.len(),
            descriptors >= least,
            size == buffers@[0]@.data.len(),
            0 < size <= MAX_FRAME_LENGTH,
            forall|j: int| 0 <= j < i ==> (#[trigger] buffers@[j])@.data.len() == size,
        decreases buffers.len() - i,
    {
        if buffers[i].len() != size {
            assert(buffer_views(buffers@)[i as int].data.len() != size);
            return Err(InitError::BufferSize);
        }
        i = i + 1;
    }
    assert(uniform(buffer_views(buffers@))) by {
        assert forall|j: int| 0 <= j < buffers@.len() implies (#[trigger] buffer_views(
            buffers@,
        )[j]).data.len() == size by {
            assert(buffers@[j]@.data.len() == size);
        }
    }
    Ok(())
}

} // verus!

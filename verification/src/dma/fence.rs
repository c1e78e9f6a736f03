//! Memory ordering around the hand-over of a descriptor.

use core::sync::atomic::Ordering;
use vstd::prelude::*;

verus! {

/// How strongly a fence orders the memory accesses around it. There is no
/// relaxed order: a fence of that order orders nothing.
#[derive(Clone, Copy, Debug, PartialEq, Eq, Structural)]
pub enum FenceOrder {
    /// Later reads and writes stay behind earlier reads.
    Acquire,
    /// Earlier reads and writes stay ahead of later writes.
    Release,
    /// Both, in one order that every observer agrees on.
    SeqCst,
}

/// The barrier that makes a write leave the core, as the hardware at hand
/// needs it.
///
/// A descriptor is handed over by a write to memory that the engine reads on
/// its own. Which instruction pushes that write out of the core's write
/// buffer depends on the core (on a Cortex-M it is `dsb`), so the descriptors
/// take the barrier as a parameter. Nothing is claimed of the call, and no
/// proof rests on it: it only has to return.
pub trait Barrier {
    /// Returns once every memory access made before the call is complete.
    fn data_sync(&self);
}

/// A barrier for cores that need no instruction of their own, and for
/// running the rings off the target: a sequentially consistent fence.
#[derive(Clone, Copy, Debug)]
pub struct FenceBarrier;

impl Barrier for FenceBarrier {
    fn data_sync(&self) {
        memory_fence(FenceOrder::SeqCst);
    }
}

/// Calls `core::sync::atomic::fence` with the ordering that `order` names.
///
/// Not verified: the body is the call. The call returns nothing and changes
/// no value of the program, so nothing is claimed of it. It panics on the
/// relaxed ordering alone, which `FenceOrder` cannot name.
#[verifier::external_body]
pub(crate) fn memory_fence(order: FenceOrder) {
    core::sync::atomic::fence(
        match order {
            FenceOrder::Acquire => Ordering::Acquire,
            FenceOrder::Release => Ordering::Release,
            FenceOrder::SeqCst => Ordering::SeqCst,
        },
    );
}

/// Calls `core::sync::atomic::compiler_fence` with the ordering that `order`
/// names.
///
/// Not verified: the body is the call. The call returns nothing and changes
/// no value of the program, so nothing is claimed of it. It panics on the
/// relaxed ordering alone, which `FenceOrder` cannot name.
#[verifier::external_body]
pub(crate) fn compiler_fence(order: FenceOrder) {
    core::sync::atomic::compiler_fence(
        match order {
            FenceOrder::Acquire => Ordering::Acquire,
            FenceOrder::Release => Ordering::Release,
            FenceOrder::SeqCst => Ordering::SeqCst,
        },
    );
}

} // verus!

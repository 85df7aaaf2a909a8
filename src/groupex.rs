//! The interface of a slot-lock array, shared by the collections built on it.
use crate::error::GroupexError;
use vstd::prelude::*;

verus! {

/// A fixed array of lock slots addressed by index.
///
/// Every operation takes the index of an existing slot. Slot state lives in
/// atomics shared between threads, so contracts speak of the outcome of each
/// call; what the bits do is stated once, over the word model of
/// [`crate::bits`].
pub trait Groupex {
    /// The number of slots, fixed for the array's lifetime.
    spec fn slot_count(&self) -> nat;

    /// The number of slots.
    fn elements(&self) -> (r: usize)
        ensures
            r as nat == self.slot_count(),
            r > 0,
    ;

    /// Blocks until slot `index` is acquired by this call.
    fn lock(&self, index: usize) -> (r: Result<(), GroupexError>)
        requires
            index < self.slot_count(),
        ensures
            r is Ok || r == Err::<(), GroupexError>(GroupexError::Starved),
    ;

    /// One attempt at slot `index`: `Ok(true)` when this call acquired it,
    /// `Ok(false)` when it was already held. Never blocks.
    fn try_lock(&self, index: usize) -> (r: Result<bool, GroupexError>)
        requires
            index < self.slot_count(),
        ensures
            r is Ok,
    ;

    /// Releases slot `index`, which the caller holds, and wakes its waiters.
    fn unlock(&self, index: usize) -> (r: Result<(), GroupexError>)
        requires
            index < self.slot_count(),
        ensures
            r is Ok,
    ;

    /// A relaxed snapshot of whether slot `index` is held.
    fn is_locked(&self, index: usize) -> (r: Result<bool, GroupexError>)
        requires
            index < self.slot_count(),
        ensures
            r is Ok,
    ;
}

} // verus!

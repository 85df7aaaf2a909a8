//! A slot-lock array whose size is fixed when the program is compiled.
use crate::error::GroupexError;
use crate::groupex::Groupex;
use crate::raw_groupex::RawGroupex;
use crate::wait::AtomicWait;
use vstd::prelude::*;

verus! {

/// `BLOCKS` lock words of 32 slots each; contended threads block on the lock
/// word and every release wakes all waiters of that word.
pub struct RawSizedGroupex<const BLOCKS: usize> {
    inner: RawGroupex<AtomicWait>,
}

impl<const BLOCKS: usize> RawSizedGroupex<BLOCKS> {
    #[verifier::type_invariant]
    spec fn well_formed(&self) -> bool {
        self.inner.spec_elements() == BLOCKS * 32
    }

    /// The number of slots.
    pub open spec fn spec_elements(&self) -> nat {
        BLOCKS as nat * 32
    }

    /// An array with every slot free; `ZeroCapacity` when `BLOCKS` is zero.
    pub fn new() -> (r: Result<Self, GroupexError>)
        requires
            BLOCKS * 32 <= usize::MAX,
        ensures
            BLOCKS == 0 ==> r == Err::<Self, GroupexError>(GroupexError::ZeroCapacity),
            BLOCKS > 0 ==> r is Ok,
    {
        if BLOCKS == 0 {
            return Err(GroupexError::ZeroCapacity);
        }
        Ok(RawSizedGroupex { inner: RawGroupex::with_blocks(BLOCKS, AtomicWait) })
    }

    /// The number of slots.
    pub fn elements(&self) -> (r: usize)
        ensures
            r as nat == self.spec_elements(),
            r > 0,
    {
        proof {
            use_type_invariant(self);
        }
        self.inner.elements()
    }

    /// Blocks until slot `index` is acquired by this call.
    pub fn lock(&self, index: usize) -> (r: Result<(), GroupexError>)
        requires
            index < self.spec_elements(),
        ensures
            r is Ok || r == Err::<(), GroupexError>(GroupexError::Starved),
    {
        proof {
            use_type_invariant(self);
        }
        self.inner.lock(index)
    }

    /// One attempt at slot `index`: `Ok(true)` when this call acquired it,
    /// `Ok(false)` when it was already held. Never blocks.
    pub fn try_lock(&self, index: usize) -> (r: Result<bool, GroupexError>)
        requires
            index < self.spec_elements(),
        ensures
            r is Ok,
    {
        proof {
            use_type_invariant(self);
        }
        self.inner.try_lock(index)
    }

    /// Releases slot `index`, which the caller holds, and wakes its waiters.
    pub fn unlock(&self, index: usize) -> (r: Result<(), GroupexError>)
        requires
            index < self.spec_elements(),
        ensures
            r is Ok,
    {
        proof {
            use_type_invariant(self);
        }
        self.inner.unlock(index)
    }

    /// A relaxed snapshot of whether slot `index` is held.
    pub fn is_locked(&self, index: usize) -> (r: Result<bool, GroupexError>)
        requires
            index < self.spec_elements(),
        ensures
            r is Ok,
    {
        proof {
            use_type_invariant(self);
        }
        self.inner.is_locked(index)
    }
}

impl<const BLOCKS: usize> Groupex for RawSizedGroupex<BLOCKS> {
    open spec fn slot_count(&self) -> nat {
        self.spec_elements()
    }

    fn elements(&self) -> (r: usize) {
        RawSizedGroupex::elements(self)
    }

    fn lock(&self, index: usize) -> (r: Result<(), GroupexError>) {
        RawSizedGroupex::lock(self, index)
    }

    fn try_lock(&self, index: usize) -> (r: Result<bool, GroupexError>) {
        RawSizedGroupex::try_lock(self, index)
    }

    fn unlock(&self, index: usize) -> (r: Result<(), GroupexError>) {
        RawSizedGroupex::unlock(self, index)
    }

    fn is_locked(&self, index: usize) -> (r: Result<bool, GroupexError>) {
        RawSizedGroupex::is_locked(self, index)
    }
}

} // verus!

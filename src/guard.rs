//! Scoped exclusive access to one element, tied to the slot that guards it.
use crate::groupex::Groupex;
use vstd::prelude::*;

verus! {

/// Proof that the current thread holds slot `index` of `groupex`, together
/// with the element that slot guards.
///
/// The guard cannot be copied; [`GroupexGuard::unlock`] consumes it, so the
/// slot is released at most once through it. A guard that is dropped instead
/// leaves its slot held.
pub struct GroupexGuard<'a, G: Groupex, T> {
    groupex: &'a G,
    index: usize,
    data: &'a T,
}

impl<'a, G: Groupex, T> GroupexGuard<'a, G, T> {
    #[verifier::type_invariant]
    spec fn well_formed(&self) -> bool {
        self.index < self.groupex.slot_count()
    }

    /// The slot this guard holds.
    pub closed spec fn slot(&self) -> nat {
        self.index as nat
    }

    /// The slot-lock array the slot belongs to.
    pub closed spec fn owner(&self) -> &'a G {
        self.groupex
    }

    /// The guarded element.
    pub closed spec fn element(&self) -> &'a T {
        self.data
    }

    /// Wraps a slot that the caller has just acquired.
    pub(crate) fn new(groupex: &'a G, index: usize, data: &'a T) -> (r: Self)
        requires
            index < groupex.slot_count(),
        ensures
            r.slot() == index,
            r.owner() == groupex,
            r.element() == data,
    {
        GroupexGuard { groupex, index, data }
    }

    /// The slot this guard holds.
    pub fn index(&self) -> (r: usize)
        ensures
            r == self.slot(),
    {
        self.index
    }

    /// The guarded element.
    pub fn data(&self) -> (r: &'a T)
        ensures
            r == self.element(),
    {
        self.data
    }

    /// Releases the slot this guard holds and wakes its waiters.
    pub fn unlock(self) {
        proof {
            use_type_invariant(&self);
        }
        let released = self.groupex.unlock(self.index);
        assert(released is Ok);
    }
}

} // verus!

//! A fixed-length sequence whose elements are locked by position.
use crate::error::GroupexError;
use crate::groupex::Groupex;
use crate::guard::GroupexGuard;
use vstd::prelude::*;

verus! {

/// The slot that guards position `position` among `slots` slots.
pub open spec fn slot_of_position(position: nat, slots: nat) -> nat
    recommends
        slots > 0,
{
    position % slots
}

/// A sequence of elements guarded by the slots of `G`: position `p` is
/// guarded by slot `p % slots`, so positions that many slots apart share a
/// lock.
pub struct GroupexVec<G: Groupex, T> {
    groupex: G,
    vec: Vec<T>,
}

impl<G: Groupex, T> View for GroupexVec<G, T> {
    type V = Seq<T>;

    closed spec fn view(&self) -> Seq<T> {
        self.vec@
    }
}

impl<G: Groupex, T> GroupexVec<G, T> {
    /// The slot-lock array that guards the elements.
    pub closed spec fn slots(&self) -> &G {
        &self.groupex
    }

    /// Takes over `items`, in order, guarded by the slots of `groupex`.
    pub fn new(groupex: G, items: Vec<T>) -> (r: Self)
        ensures
            r@ == items@,
            *r.slots() == groupex,
    {
        GroupexVec { groupex, vec: items }
    }

    /// The slot-lock array that guards the elements.
    pub fn groupex(&self) -> (r: &G)
        ensures
            r == self.slots(),
    {
        &self.groupex
    }

    /// Gives the elements back, in order.
    pub fn into_vec(self) -> (r: Vec<T>)
        ensures
            r@ == self@,
    {
        self.vec
    }

    /// The number of elements.
    pub fn len(&self) -> (r: usize)
        ensures
            r == self@.len(),
    {
        self.vec.len()
    }

    /// Locks the slot of position `index` and hands out its element.
    ///
    /// `Ok(None)` when there is no such position; no slot is touched then.
    pub fn lock(&self, index: usize) -> (r: Result<Option<GroupexGuard<'_, G, T>>, GroupexError>)
        ensures
            index >= self@.len() ==> r matches Ok(None),
            index < self@.len() ==> match r {
                Ok(Some(g)) => g.slot() == slot_of_position(index as nat, self.slots().slot_count())
                    && g.owner() == self.slots() && *g.element() == self@[index as int],
                Ok(None) => false,
                Err(e) => e == GroupexError::Starved,
            },
    {
        if index >= self.vec.len() {
            return Ok(None);
        }
        let data = &self.vec[index];
        let slot = index % self.groupex.elements();
        match self.groupex.lock(slot) {
            Ok(()) => Ok(Some(GroupexGuard::new(&self.groupex, slot, data))),
            Err(e) => Err(e),
        }
    }
}

} // verus!

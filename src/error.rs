//! Errors reported by the slot-lock array and its constructors.
use vstd::prelude::*;

verus! {

/// Why a slot-lock operation did not take place.
#[derive(Clone, Copy, Debug, PartialEq, Eq, Structural)]
pub enum GroupexError {
    /// A slot-lock array was requested with no slots at all.
    ZeroCapacity,
    /// `index` does not name a slot of an array of `slots` slots; no lock
    /// word was touched.
    IndexOutOfRange { index: usize, slots: usize },
    /// The blocking retry loop used up its (astronomically large) budget of
    /// wake-ups without ever winning the slot.
    Starved,
}

} // verus!

//! Striped locks addressed by index.
//!
//! A [`RawGroupex`] is a fixed array of lock slots packed as bits into
//! atomically accessed 32-bit words. Keyed collections built on top of it
//! ([`GroupexMap`], [`GroupexVec`]) resolve each element to a slot, so that
//! many elements share few lock words. Two elements may resolve to the same
//! slot: a thread that holds one of them must not lock the other.
pub mod bits;
pub mod error;
pub mod groupex;
pub mod groupex_map;
pub mod groupex_vec;
pub mod guard;
pub mod laws;
pub mod raw_groupex;
pub mod raw_sized_groupex;
pub mod wait;

pub use error::GroupexError;
pub use groupex::Groupex;
pub use groupex_map::GroupexMap;
pub use groupex_vec::GroupexVec;
pub use guard::GroupexGuard;
pub use raw_groupex::RawGroupex;
pub use raw_sized_groupex::RawSizedGroupex;
pub use wait::{AtomicWait, WaitWake};

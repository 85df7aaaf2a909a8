//! The blocking side of a contended acquire: a waiter suspends a thread on a
//! lock word and wakes it again when a slot of that word is released.
use std::sync::atomic::AtomicU32;
use vstd::prelude::*;

verus! {

/// A way to suspend threads on a lock word and to wake them.
///
/// `wait` may return at any time (spuriously, or after any wake on the word);
/// the slot array re-checks its bit after every return, so no implementation
/// needs to promise more than that it does not sleep through a `wake` issued
/// after the word stopped holding `observed`.
pub trait WaitWake {
    /// Suspends the caller while `word` still holds `observed`, the value seen
    /// when slot `index` was found held.
    fn wait(&self, word: &AtomicU32, observed: u32, index: usize);

    /// Wakes threads waiting on `word` for slot `index`, which was just
    /// released.
    fn wake(&self, word: &AtomicU32, index: usize);
}

/// Blocks on the lock word itself (a futex on Linux) and, on release, wakes
/// every thread waiting on that word: each re-checks its own bit.
#[derive(Clone, Copy, Debug, Default)]
pub struct AtomicWait;

/// Relies on `atomic_wait::wait`: returns at once unless `word` holds
/// `observed`, may return spuriously; no outcome is promised.
#[verifier::external_body]
fn futex_wait(word: &AtomicU32, observed: u32) {
    atomic_wait::wait(word, observed)
}

/// Relies on `atomic_wait::wake_all`: wakes the threads waiting on `word`.
#[verifier::external_body]
fn futex_wake_all(word: &AtomicU32)
{
    atomic_wait::wake_all(word)
}

impl WaitWake for AtomicWait {
    fn wait(&self, word: &AtomicU32, observed: u32, index: usize) {
        futex_wait(word, observed)
    }

    fn wake(&self, word: &AtomicU32, index: usize) {
        futex_wake_all(word)
    }
}

} // verus!

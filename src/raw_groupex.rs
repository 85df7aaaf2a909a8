//! The slot-lock array: a lock-free fast path, then spin-then-block.
use crate::bits::{acquired, clear_mask, get_mask, held_in, BLOCK_SIZE};
use crate::error::GroupexError;
use crate::groupex::Groupex;
use crate::wait::WaitWake;
use std::sync::atomic::{AtomicU32, Ordering};
use vstd::prelude::*;

verus! {

/// Rounds of spinning before a contended acquire blocks.
pub const SPIN_LIMIT: u32 = 5;

/// Wake-ups a blocked acquire waits through before it gives up.
///
/// Every loop here carries a termination measure, so the blocking loop is
/// bounded too; at a million wake-ups a second the bound lasts for more than
/// half a million years.
pub const WAIT_LIMIT: u64 = 0xffff_ffff_ffff_ffff;

/// The number of spin hints issued in spin round `round`: doubling from one.
pub open spec fn spins_for(round: nat) -> nat
    decreases round,
{
    if round == 0 {
        1
    } else {
        2 * spins_for((round - 1) as nat)
    }
}

/// Relies on `std::hint::spin_loop`: a processor hint, no effect on values.
#[verifier::external_body]
fn spin_hint() {
    std::hint::spin_loop()
}

/// Issues `count` spin hints.
fn spin(count: u32) {
    let mut done: u32 = 0;
    while done < count
        invariant
            done <= count,
        decreases count - done,
    {
        spin_hint();
        done = done + 1;
    }
}

/// A slot-lock array of `32 * words` slots whose blocked threads wait
/// through `W`.
pub struct RawGroupex<W: WaitWake> {
    blocks: Vec<AtomicU32>,
    waiter: W,
}

impl<W: WaitWake> RawGroupex<W> {
    #[verifier::type_invariant]
    spec fn well_formed(&self) -> bool {
        0 < self.blocks@.len() && self.blocks@.len() * 32 <= usize::MAX
    }

    /// The number of slots.
    pub closed spec fn spec_elements(&self) -> nat {
        self.blocks@.len() * 32
    }

    /// An array of `blocks` lock words, every slot free.
    pub fn new(blocks: usize, waiter: W) -> (r: Result<Self, GroupexError>)
        requires
            blocks * 32 <= usize::MAX,
        ensures
            blocks == 0 ==> r == Err::<Self, GroupexError>(GroupexError::ZeroCapacity),
            blocks > 0 ==> (r matches Ok(g) && g.spec_elements() == blocks * 32),
    {
        if blocks == 0 {
            return Err(GroupexError::ZeroCapacity);
        }
        Ok(Self::with_blocks(blocks, waiter))
    }

    /// An array of `blocks` lock words, every slot free.
    pub(crate) fn with_blocks(blocks: usize, waiter: W) -> (r: Self)
        requires
            0 < blocks,
            blocks * 32 <= usize::MAX,
        ensures
            r.spec_elements() == blocks * 32,
    {
        let mut words: Vec<AtomicU32> = Vec::with_capacity(blocks);
        let mut i: usize = 0;
        while i < blocks
            invariant
                i <= blocks,
                words@.len() == i,
            decreases blocks - i,
        {
            words.push(AtomicU32::new(0));
            i = i + 1;
        }
        RawGroupex { blocks: words, waiter }
    }

    /// The number of slots.
    pub fn elements(&self) -> (r: usize)
        ensures
            r as nat == self.spec_elements(),
            r > 0,
    {
        proof {
            use_type_invariant(self);
        }
        self.blocks.len() * BLOCK_SIZE
    }

    /// The error for an index outside the array, if `index` is one.
    fn check_index(&self, index: usize) -> (r: Result<(), GroupexError>)
        ensures
            index >= self.spec_elements() ==> r == Err::<(), GroupexError>(
                GroupexError::IndexOutOfRange { index, slots: self.spec_elements() as usize },
            ),
            index < self.spec_elements() ==> r is Ok,
    {
        let slots = self.elements();
        if index >= slots {
            Err(GroupexError::IndexOutOfRange { index, slots })
        } else {
            Ok(())
        }
    }

    /// The lock word that holds slot `index`.
    fn word(&self, index: usize) -> (r: &AtomicU32)
        requires
            index < self.spec_elements(),
        ensures
            *r == self.blocks@[index as int / 32],
    {
        &self.blocks[index / BLOCK_SIZE]
    }

    /// Blocks until slot `index` is acquired by this call.
    ///
    /// `index` must name a slot. Callers outside verified code that pass
    /// another get `IndexOutOfRange` back before any lock word is touched;
    /// the same holds for every operation below.
    pub fn lock(&self, index: usize) -> (r: Result<(), GroupexError>)
        requires
            index < self.spec_elements(),
        ensures
            r is Ok || r == Err::<(), GroupexError>(GroupexError::Starved),
    {
        self.check_index(index)?;
        let word = self.word(index);
        let prev = word.fetch_or(get_mask(index), Ordering::Acquire);
        if acquired(prev, index) {
            Ok(())
        } else {
            self.lock_slow(word, index)
        }
    }

    /// The contended path: retry the atomic or of the slot's bit, acting
    /// after each failed try as [`slow_step`] decides; `Err(Starved)` only
    /// when it says to give up.
    fn lock_slow(&self, word: &AtomicU32, index: usize) -> (r: Result<(), GroupexError>)
        ensures
            r is Ok || r == Err::<(), GroupexError>(GroupexError::Starved),
    {
        let mask = get_mask(index);
        let mut round: u32 = 0;
        let mut waits: u64 = 0;
        loop
            invariant
                round <= SPIN_LIMIT,
                waits <= WAIT_LIMIT,
                mask == crate::bits::mask_of(index as nat),
            decreases SPIN_LIMIT - round, WAIT_LIMIT - waits,
        {
            let prev = word.fetch_or(mask, Ordering::Acquire);
            match slow_step(prev, index, round, waits) {
                SlowStep::Acquired => {
                    return Ok(());
                },
                SlowStep::Spin(pause) => {
                    spin(pause);
                    round = round + 1;
                },
                SlowStep::Wait => {
                    self.waiter.wait(word, prev, index);
                    waits = waits + 1;
                },
                SlowStep::GiveUp => {
                    return Err(GroupexError::Starved);
                },
            }
        }
    }

    /// One attempt at slot `index`: `Ok(true)` when this call acquired it,
    /// `Ok(false)` when it was already held. Never blocks.
    pub fn try_lock(&self, index: usize) -> (r: Result<bool, GroupexError>)
        requires
            index < self.spec_elements(),
        ensures
            r is Ok,
    {
        self.check_index(index)?;
        let prev = self.word(index).fetch_or(get_mask(index), Ordering::Acquire);
        Ok(acquired(prev, index))
    }

    /// Releases slot `index`, which the caller holds, and wakes its waiters.
    pub fn unlock(&self, index: usize) -> (r: Result<(), GroupexError>)
        requires
            index < self.spec_elements(),
        ensures
            r is Ok,
    {
        self.check_index(index)?;
        let word = self.word(index);
        word.fetch_and(clear_mask(index), Ordering::Release);
        self.waiter.wake(word, index);
        Ok(())
    }

    /// A relaxed snapshot of whether slot `index` is held; it may be stale
    /// as soon as it is returned.
    pub fn is_locked(&self, index: usize) -> (r: Result<bool, GroupexError>)
        requires
            index < self.spec_elements(),
        ensures
            r is Ok,
    {
        self.check_index(index)?;
        let word = self.word(index).load(Ordering::Relaxed);
        Ok(word_holds(word, index))
    }
}

/// What a contended acquire does after one attempt.
#[derive(Clone, Copy, Debug, PartialEq, Eq, Structural)]
pub enum SlowStep {
    /// The attempt found the slot's bit clear: the slot is held now.
    Acquired,
    /// Issue this many spin hints, then try again.
    Spin(u32),
    /// Block on the word until it changes or a release wakes the thread,
    /// then try again.
    Wait,
    /// The wake-up budget is spent: report `Starved`.
    GiveUp,
}

/// The spin-then-block policy: given the word `prev` seen by an attempt on
/// slot `index`, after `round` spin rounds and `waits` blocking waits, what
/// to do next.
pub fn slow_step(prev: u32, index: usize, round: u32, waits: u64) -> (r: SlowStep)
    requires
        round <= SPIN_LIMIT,
    ensures
        !held_in(prev, index as nat) ==> r == SlowStep::Acquired,
        held_in(prev, index as nat) && round < SPIN_LIMIT ==> r == SlowStep::Spin(
            spins_for(round as nat) as u32,
        ),
        held_in(prev, index as nat) && round >= SPIN_LIMIT && waits < WAIT_LIMIT ==> r
            == SlowStep::Wait,
        held_in(prev, index as nat) && round >= SPIN_LIMIT && waits >= WAIT_LIMIT ==> r
            == SlowStep::GiveUp,
{
    if acquired(prev, index) {
        SlowStep::Acquired
    } else if round < SPIN_LIMIT {
        SlowStep::Spin(spin_count(round))
    } else if waits < WAIT_LIMIT {
        SlowStep::Wait
    } else {
        SlowStep::GiveUp
    }
}

/// The number of spin hints of spin round `round`.
fn spin_count(round: u32) -> (r: u32)
    requires
        round < SPIN_LIMIT,
    ensures
        r as nat == spins_for(round as nat),
{
    let mut count: u32 = 1;
    let mut done: u32 = 0;
    while done < round
        invariant
            done <= round < SPIN_LIMIT,
            count as nat == spins_for(done as nat),
        decreases round - done,
    {
        proof {
            lemma_spins_bounded(done as nat);
        }
        count = count * 2;
        done = done + 1;
    }
    count
}

/// Whether `word` marks slot `index` as held.
pub fn word_holds(word: u32, index: usize) -> (r: bool)
    ensures
        r == held_in(word, index as nat),
{
    word & get_mask(index) != 0
}

proof fn lemma_spins_bounded(round: nat)
    requires
        round < SPIN_LIMIT,
    ensures
        2 * spins_for(round) <= u32::MAX,
    decreases round,
{
    reveal_with_fuel(spins_for, 6);
}

impl<W: WaitWake> Groupex for RawGroupex<W> {
    open spec fn slot_count(&self) -> nat {
        self.spec_elements()
    }

    fn elements(&self) -> (r: usize) {
        RawGroupex::elements(self)
    }

    fn lock(&self, index: usize) -> (r: Result<(), GroupexError>) {
        RawGroupex::lock(self, index)
    }

    fn try_lock(&self, index: usize) -> (r: Result<bool, GroupexError>) {
        RawGroupex::try_lock(self, index)
    }

    fn unlock(&self, index: usize) -> (r: Result<(), GroupexError>) {
        RawGroupex::unlock(self, index)
    }

    fn is_locked(&self, index: usize) -> (r: Result<bool, GroupexError>) {
        RawGroupex::is_locked(self, index)
    }
}

} // verus!

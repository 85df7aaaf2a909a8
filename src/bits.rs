//! Where a slot lives inside the lock words, and what locking and unlocking
//! do to those words.
use vstd::prelude::*;

verus! {

/// Number of slots held by one lock word.
pub const BLOCK_SIZE: usize = 32;

/// The single-bit mask that selects slot `index` inside its word.
pub open spec fn mask_of(index: nat) -> u32 {
    1u32 << ((index % 32) as u32)
}

/// Whether slot `index` is marked as held in `word`, the word that holds it.
pub open spec fn held_in(word: u32, index: nat) -> bool {
    word & mask_of(index) != 0
}

/// The position, in the word array, of the word that holds slot `index`.
pub open spec fn block_of(index: nat) -> nat {
    index / 32
}

/// Whether slot `index` is held in the lock state `words`.
pub open spec fn slot_held(words: Seq<u32>, index: nat) -> bool {
    held_in(words[block_of(index) as int], index)
}

/// The lock state after the atomic or of slot `index`'s bit into its word.
pub open spec fn after_acquire(words: Seq<u32>, index: nat) -> Seq<u32> {
    words.update(block_of(index) as int, words[block_of(index) as int] | mask_of(index))
}

/// The lock state after the atomic and that clears slot `index`'s bit.
pub open spec fn after_release(words: Seq<u32>, index: nat) -> Seq<u32> {
    words.update(block_of(index) as int, words[block_of(index) as int] & !mask_of(index))
}

/// The mask of slot `index` within its word.
pub fn get_mask(index: usize) -> (r: u32)
    ensures
        r == mask_of(index as nat),
{
    let bit: usize = index % BLOCK_SIZE;
    1u32 << (bit as u32)
}

/// The mask that keeps every bit of a word but slot `index`'s.
pub fn clear_mask(index: usize) -> (r: u32)
    ensures
        r == !mask_of(index as nat),
{
    !get_mask(index)
}

/// Decides, from the word observed just before the atomic or of slot
/// `index`'s bit, whether that or acquired the slot.
pub fn acquired(prev: u32, index: usize) -> (r: bool)
    ensures
        r == !held_in(prev, index as nat),
{
    let mask = get_mask(index);
    proof {
        lemma_or_changes_iff_clear(prev, (index % 32) as u32);
    }
    (prev | mask) != prev
}

/// Or-ing a bit into a word changes the word exactly when the bit was clear.
pub proof fn lemma_or_changes_iff_clear(w: u32, b: u32)
    requires
        b < 32,
    ensures
        ((w | (1u32 << b)) != w) == (w & (1u32 << b) == 0),
{
    assert(((w | (1u32 << b)) != w) == (w & (1u32 << b) == 0)) by (bit_vector)
        requires
            b < 32,
    ;
}


pub(crate) proof fn lemma_word_bits(w: u32, b: u32, c: u32)
    requires
        b < 32,
        c < 32,
    ensures
        (w | (1u32 << b)) & (1u32 << b) != 0,
        (w & !(1u32 << b)) & (1u32 << b) == 0,
        b != c ==> (((w | (1u32 << b)) & (1u32 << c)) != 0) == ((w & (1u32 << c)) != 0),
        b != c ==> (((w & !(1u32 << b)) & (1u32 << c)) != 0) == ((w & (1u32 << c)) != 0),
        w & (1u32 << b) == 0 ==> (w | (1u32 << b)) & !(1u32 << b) == w,
        w & (1u32 << b) != 0 ==> (w | (1u32 << b)) == w,
{
    assert((w | (1u32 << b)) & (1u32 << b) != 0) by (bit_vector)
        requires
            b < 32,
    ;
    assert((w & !(1u32 << b)) & (1u32 << b) == 0) by (bit_vector)
        requires
            b < 32,
    ;
    assert(b != c ==> (((w | (1u32 << b)) & (1u32 << c)) != 0) == ((w & (1u32 << c)) != 0))
        by (bit_vector)
        requires
            b < 32,
            c < 32,
    ;
    assert(b != c ==> (((w & !(1u32 << b)) & (1u32 << c)) != 0) == ((w & (1u32 << c)) != 0))
        by (bit_vector)
        requires
            b < 32,
            c < 32,
    ;
    assert(w & (1u32 << b) == 0 ==> (w | (1u32 << b)) & !(1u32 << b) == w) by (bit_vector)
        requires
            b < 32,
    ;
    assert(w & (1u32 << b) != 0 ==> (w | (1u32 << b)) == w) by (bit_vector)
        requires
            b < 32,
    ;
}

/// Two distinct slots that share a word have distinct bits in it.
proof fn lemma_same_block_distinct_bits(i: nat, j: nat)
    requires
        i != j,
        block_of(i) == block_of(j),
    ensures
        i % 32 != j % 32,
{
}

/// Acquiring slot `index` marks it held and leaves every other slot as it was.
pub proof fn lemma_acquire_marks_only(words: Seq<u32>, index: nat)
    requires
        index < words.len() * 32,
    ensures
        after_acquire(words, index).len() == words.len(),
        slot_held(after_acquire(words, index), index),
        forall|j: nat|
            j < words.len() * 32 && j != index ==> #[trigger] slot_held(after_acquire(words, index), j)
                == slot_held(words, j),
{
    let b = block_of(index);
    assert(b < words.len()) by (nonlinear_arith)
        requires
            index < words.len() * 32,
            b == index / 32,
    ;
    lemma_word_bits(words[b as int], (index % 32) as u32, 0);
    assert forall|j: nat| j < words.len() * 32 && j != index implies #[trigger] slot_held(
        after_acquire(words, index),
        j,
    ) == slot_held(words, j) by {
        if block_of(j) == b {
            lemma_same_block_distinct_bits(index, j);
            lemma_word_bits(words[b as int], (index % 32) as u32, (j % 32) as u32);
        }
    }
}

/// Releasing slot `index` marks it free and leaves every other slot as it was.
pub proof fn lemma_release_clears_only(words: Seq<u32>, index: nat)
    requires
        index < words.len() * 32,
    ensures
        after_release(words, index).len() == words.len(),
        !slot_held(after_release(words, index), index),
        forall|j: nat|
            j < words.len() * 32 && j != index ==> #[trigger] slot_held(after_release(words, index), j)
                == slot_held(words, j),
{
    let b = block_of(index);
    assert(b < words.len()) by (nonlinear_arith)
        requires
            index < words.len() * 32,
            b == index / 32,
    ;
    lemma_word_bits(words[b as int], (index % 32) as u32, 0);
    assert forall|j: nat| j < words.len() * 32 && j != index implies #[trigger] slot_held(
        after_release(words, index),
        j,
    ) == slot_held(words, j) by {
        if block_of(j) == b {
            lemma_same_block_distinct_bits(index, j);
            lemma_word_bits(words[b as int], (index % 32) as u32, (j % 32) as u32);
        }
    }
}

} // verus!

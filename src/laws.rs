//! What holds across calls: locking and unlocking in the word model,
//! conversions in and out of the collections, and slot sharing.
use crate::bits::{
    after_acquire, after_release, block_of, held_in, lemma_acquire_marks_only,
    lemma_release_clears_only, lemma_word_bits, slot_held,
};
use crate::groupex::Groupex;
use crate::groupex_map::{slot_of_hash, GroupexMap};
use crate::groupex_vec::{slot_of_position, GroupexVec};
use std::hash::Hash;
use vstd::prelude::*;
use vstd::set_lib::{lemma_int_range, lemma_len_subset, lemma_map_size, set_int_range};

verus! {

/// Locking slot `index` and then unlocking it leaves the slot free and the
/// number of words unchanged; when the slot was free before, every word is
/// back to what it was.
pub proof fn law_lock_unlock_frees(words: Seq<u32>, index: nat)
    requires
        index < words.len() * 32,
    ensures
        after_release(after_acquire(words, index), index).len() == words.len(),
        !slot_held(after_release(after_acquire(words, index), index), index),
        !slot_held(words, index) ==> after_release(after_acquire(words, index), index) == words,
{
    let b = block_of(index);
    assert(b < words.len()) by (nonlinear_arith)
        requires
            index < words.len() * 32,
            b == index / 32,
    ;
    lemma_word_bits(words[b as int], (index % 32) as u32, 0);
    lemma_word_bits(words[b as int] | (1u32 << ((index % 32) as u32)), (index % 32) as u32, 0);
    if !slot_held(words, index) {
        assert(after_release(after_acquire(words, index), index) =~= words);
    }
}

/// An attempt on a held slot fails and changes no word; an attempt on a free
/// slot succeeds and leaves it held. The attempt's outcome is read from the
/// slot's word as it was just before.
pub proof fn law_try_lock_outcome(words: Seq<u32>, index: nat)
    requires
        index < words.len() * 32,
    ensures
        held_in(words[block_of(index) as int], index) == slot_held(words, index),
        slot_held(words, index) ==> after_acquire(words, index) == words,
        !slot_held(words, index) ==> slot_held(after_acquire(words, index), index),
{
    let b = block_of(index);
    assert(b < words.len()) by (nonlinear_arith)
        requires
            index < words.len() * 32,
            b == index / 32,
    ;
    lemma_word_bits(words[b as int], (index % 32) as u32, 0);
    lemma_acquire_marks_only(words, index);
    if slot_held(words, index) {
        assert(after_acquire(words, index) =~= words);
    }
}

/// One step on the lock words: `(index, false)` is an atomic acquire attempt
/// on slot `index`, `(index, true)` a release of it.
pub open spec fn apply(words: Seq<u32>, op: (nat, bool)) -> Seq<u32> {
    if op.1 {
        after_release(words, op.0)
    } else {
        after_acquire(words, op.0)
    }
}

/// The lock words after the steps `ops`, in order.
pub open spec fn run(words: Seq<u32>, ops: Seq<(nat, bool)>) -> Seq<u32>
    decreases ops.len(),
{
    if ops.len() == 0 {
        words
    } else {
        apply(run(words, ops.drop_last()), ops.last())
    }
}

/// While slot `index` is held and its holder does not release it, whatever
/// other threads do keeps it held, and every acquire attempt on it finds it
/// held and so fails.
pub proof fn law_mutual_exclusion(words: Seq<u32>, ops: Seq<(nat, bool)>, index: nat)
    requires
        index < words.len() * 32,
        slot_held(words, index),
        forall|k: int|
            0 <= k < ops.len() ==> #[trigger] ops[k].0 < words.len() * 32 && ops[k] != (index, true),
    ensures
        run(words, ops).len() == words.len(),
        slot_held(run(words, ops), index),
        forall|k: int|
            0 <= k < ops.len() && #[trigger] ops[k] == (index, false) ==> slot_held(
                run(words, ops.take(k)),
                index,
            ),
    decreases ops.len(),
{
    if ops.len() > 0 {
        let before = ops.drop_last();
        law_mutual_exclusion(words, before, index);
        let mid = run(words, before);
        let op = ops.last();
        if op.1 {
            lemma_release_clears_only(mid, op.0);
        } else {
            lemma_acquire_marks_only(mid, op.0);
        }
        assert forall|k: int|
            0 <= k < ops.len() && #[trigger] ops[k] == (index, false) implies slot_held(
            run(words, ops.take(k)),
            index,
        ) by {
            if k == ops.len() - 1 {
                assert(ops.take(k) =~= before);
            } else {
                assert(ops.take(k) =~= before.take(k));
                assert(before[k] == ops[k]);
            }
        }
    }
}

/// A sequence put into a [`GroupexVec`] and taken out again comes back
/// unchanged, in order.
pub proof fn law_vec_round_trip<G: Groupex, T>(items: Vec<T>, wrapped: GroupexVec<G, T>, back: Vec<T>)
    requires
        wrapped@ == items@,
        back@ == wrapped@,
    ensures
        back@ == items@,
{
}

/// A table put into a [`GroupexMap`] and taken out again comes back with the
/// same keys and values.
pub proof fn law_map_round_trip<G: Groupex, K: Eq + Hash, V>(
    entries: Map<K, V>,
    wrapped: GroupexMap<G, K, V>,
    back: Map<K, V>,
)
    requires
        wrapped@ == entries,
        back == wrapped@,
    ensures
        back == entries,
{
}

/// With more positions than slots, two distinct positions share a slot.
pub proof fn law_positions_alias(slots: nat, count: nat)
    requires
        0 < slots < count,
    ensures
        exists|p: nat, q: nat|
            p < q < count && #[trigger] slot_of_position(p, slots) == #[trigger] slot_of_position(
                q,
                slots,
            ),
{
    assert(slot_of_position(0, slots) == slot_of_position(slots, slots)) by (nonlinear_arith)
        requires
            slots > 0,
    ;
}

/// With more keys than slots, two distinct keys share a slot, whatever the
/// hash of each key is.
pub proof fn law_keys_alias<K>(keys: Set<K>, hash: spec_fn(K) -> u64, slots: nat)
    requires
        keys.finite(),
        0 < slots < keys.len(),
    ensures
        exists|a: K, b: K|
            keys.contains(a) && keys.contains(b) && a != b && #[trigger] slot_of_hash(hash(a), slots)
                == #[trigger] slot_of_hash(hash(b), slots),
{
    let f = |k: K| slot_of_hash(hash(k), slots) as int;
    let image = keys.map(f);
    let range = set_int_range(0, slots as int);
    lemma_int_range(0, slots as int);
    assert forall|i: int| image.contains(i) implies range.contains(i) by {
        let k = choose|k: K| keys.contains(k) && f(k) == i;
        assert(0 <= f(k) < slots) by (nonlinear_arith)
            requires
                slots > 0,
                f(k) == (hash(k) as nat) % slots,
        ;
    }
    lemma_len_subset(image, range);
    if forall|a: K, b: K|
        keys.contains(a) && keys.contains(b) && a != b ==> slot_of_hash(hash(a), slots)
            != slot_of_hash(hash(b), slots) {
        assert(vstd::relations::injective_on(f, keys));
        lemma_map_size(keys, image, f);
        assert(false);
    }
}

/// With more keys in a [`GroupexMap`] than slots, two distinct keys of it
/// share a slot, whatever hash each key gets.
pub proof fn law_map_keys_alias<G: Groupex, K: Eq + Hash, V>(
    map: GroupexMap<G, K, V>,
    hash: spec_fn(K) -> u64,
)
    requires
        0 < map.slots().slot_count() < map@.dom().len(),
    ensures
        exists|a: K, b: K|
            map@.contains_key(a) && map@.contains_key(b) && a != b && #[trigger] slot_of_hash(
                hash(a),
                map.slots().slot_count(),
            ) == #[trigger] slot_of_hash(hash(b), map.slots().slot_count()),
{
    map.lemma_keys_finite();
    law_keys_alias(map@.dom(), hash, map.slots().slot_count());
}

} // verus!

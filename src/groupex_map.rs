//! A fixed key-value table whose values are locked by key.
use crate::error::GroupexError;
use crate::groupex::Groupex;
use crate::guard::GroupexGuard;
use std::collections::hash_map::RandomState;
use std::collections::HashMap;
use std::hash::{BuildHasher, Hash};
use vstd::prelude::*;
use vstd::std_specs::hash::obeys_key_model;

verus! {

/// The slot that guards a key whose hash is `hash`, among `slots` slots.
pub open spec fn slot_of_hash(hash: u64, slots: nat) -> nat
    recommends
        slots > 0,
{
    (hash as nat) % slots
}

/// The slot that guards a key whose hash is `hash`, among `slots` slots.
pub fn slot_for_hash(hash: u64, slots: usize) -> (r: usize)
    requires
        slots > 0,
    ensures
        r as nat == slot_of_hash(hash, slots as nat),
        r < slots,
{
    (hash % (slots as u64)) as usize
}

/// Relies on `HashMap::hasher`: the hasher the map was built with, which it
/// keeps for its lifetime.
#[verifier::external_body]
fn map_hasher<K, V>(map: &HashMap<K, V>) -> &RandomState {
    map.hasher()
}

/// Relies on `BuildHasher::hash_one`: one hasher gives a key the same hash
/// on every call; the hasher is seeded per process, so nothing is said of
/// the value.
#[verifier::external_body]
fn hash_one<K: Hash>(state: &RandomState, key: &K) -> u64 {
    state.hash_one(key)
}

/// A table of values guarded by the slots of `G`: a key is guarded by the
/// slot its hash selects, so distinct keys may share a lock.
pub struct GroupexMap<G: Groupex, K, V> {
    groupex: G,
    map: HashMap<K, V>,
}

impl<G: Groupex, K, V> View for GroupexMap<G, K, V> {
    type V = Map<K, V>;

    closed spec fn view(&self) -> Map<K, V> {
        self.map@
    }
}

impl<G: Groupex, K: Eq + Hash, V> GroupexMap<G, K, V> {
    /// The slot-lock array that guards the values.
    pub closed spec fn slots(&self) -> &G {
        &self.groupex
    }

    /// The table holds finitely many keys.
    pub proof fn lemma_keys_finite(&self)
        ensures
            self@.dom().finite(),
    {
    }

    /// Takes over the entries of `map`, guarded by the slots of `groupex`.
    pub fn new(groupex: G, map: HashMap<K, V>) -> (r: Self)
        ensures
            r@ == map@,
            *r.slots() == groupex,
    {
        GroupexMap { groupex, map }
    }

    /// The slot-lock array that guards the values.
    pub fn groupex(&self) -> (r: &G)
        ensures
            r == self.slots(),
    {
        &self.groupex
    }

    /// Gives the entries back.
    pub fn into_map(self) -> (r: HashMap<K, V>)
        ensures
            r@ == self@,
    {
        self.map
    }

    /// Locks the slot of `key` and hands out its value.
    ///
    /// `Ok(None)` when the key is absent; no slot is touched then.
    pub fn lock(&self, key: K) -> (r: Result<Option<GroupexGuard<'_, G, V>>, GroupexError>)
        ensures
            obeys_key_model::<K>() ==> {
                &&& !self@.contains_key(key) ==> (r matches Ok(None))
                &&& self@.contains_key(key) ==> match r {
                    Ok(Some(g)) => g.slot() < self.slots().slot_count() && g.owner()
                        == self.slots() && *g.element() == self@[key],
                    Ok(None) => false,
                    Err(e) => e == GroupexError::Starved,
                }
            },
    {
        let hash = hash_one(map_hasher(&self.map), &key);
        self.lock_hashed(&key, hash)
    }

    /// Locks the slot selected by `hash` and hands out the value of `key`.
    ///
    /// `hash` must be the hash of `key` under this map's hasher, as
    /// [`GroupexMap::lock`] passes it: a key reached through two different
    /// hashes would be guarded by two different slots.
    pub fn lock_hashed(&self, key: &K, hash: u64) -> (r: Result<
        Option<GroupexGuard<'_, G, V>>,
        GroupexError,
    >)
        ensures
            obeys_key_model::<K>() ==> {
                &&& !self@.contains_key(*key) ==> (r matches Ok(None))
                &&& self@.contains_key(*key) ==> match r {
                    Ok(Some(g)) => g.slot() == slot_of_hash(hash, self.slots().slot_count())
                        && g.slot() < self.slots().slot_count() && g.owner() == self.slots()
                        && *g.element() == self@[*key],
                    Ok(None) => false,
                    Err(e) => e == GroupexError::Starved,
                }
            },
    {
        let data = match self.map.get(key) {
            Some(v) => v,
            None => return Ok(None),
        };
        let slots = self.groupex.elements();
        let slot = slot_for_hash(hash, slots);
        match self.groupex.lock(slot) {
            Ok(()) => Ok(Some(GroupexGuard::new(&self.groupex, slot, data))),
            Err(e) => Err(e),
        }
    }
}

} // verus!

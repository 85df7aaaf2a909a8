use groupex::{AtomicWait, GroupexMap, GroupexVec, RawGroupex, RawSizedGroupex};
use std::collections::HashMap;
use std::sync::atomic::{AtomicU32, Ordering};

fn array(blocks: usize) -> RawGroupex<AtomicWait> {
    RawGroupex::new(blocks, AtomicWait).unwrap()
}

#[test]
fn vec_round_trip_keeps_order() {
    let items = vec![5u32, 1, 4, 1, 5, 9, 2, 6];
    let wrapped = GroupexVec::new(array(1), items.clone());
    assert_eq!(wrapped.len(), 8);
    assert_eq!(wrapped.into_vec(), items);
}

#[test]
fn empty_vec_round_trip() {
    let wrapped = GroupexVec::new(array(1), Vec::<u8>::new());
    assert_eq!(wrapped.len(), 0);
    assert!(matches!(wrapped.lock(0), Ok(None)));
    assert_eq!(wrapped.into_vec(), Vec::<u8>::new());
}

#[test]
fn vec_lock_hands_out_the_element_and_its_slot() {
    let items: Vec<u32> = (0..100).map(|i| i * 10).collect();
    let wrapped = GroupexVec::new(array(1), items);
    let guard = wrapped.lock(70).unwrap().unwrap();
    assert_eq!(guard.index(), 70 % 32);
    assert_eq!(*guard.data(), 700);
    guard.unlock();
    let guard = wrapped.lock(3).unwrap().unwrap();
    assert_eq!(guard.index(), 3);
    assert_eq!(*guard.data(), 30);
    guard.unlock();
}

#[test]
fn vec_lock_past_the_end_is_absent_and_touches_no_slot() {
    let wrapped = GroupexVec::new(array(1), vec![1u8, 2, 3]);
    assert!(matches!(wrapped.lock(3), Ok(None)));
    assert!(matches!(wrapped.lock(usize::MAX), Ok(None)));
    for i in 0..32 {
        assert_eq!(wrapped.groupex().is_locked(i), Ok(false));
    }
    let items = wrapped.into_vec();
    assert_eq!(items, vec![1, 2, 3]);
}

#[test]
fn vec_positions_one_capacity_apart_share_a_slot() {
    let items: Vec<u32> = (0..33).collect();
    let wrapped = GroupexVec::new(RawSizedGroupex::<1>::new().unwrap(), items);
    let guard = wrapped.lock(0).unwrap().unwrap();
    assert_eq!(guard.index(), 0);
    // Position 32 resolves to the slot held through position 0.
    assert_eq!(wrapped.groupex().try_lock(32 % 32), Ok(false));
    guard.unlock();
    let guard = wrapped.lock(32).unwrap().unwrap();
    assert_eq!(guard.index(), 0);
    assert_eq!(*guard.data(), 32);
    guard.unlock();
}

#[test]
fn vec_guard_gives_exclusive_counter_access() {
    let counters: Vec<AtomicU32> = (0..2).map(|_| AtomicU32::new(0)).collect();
    let wrapped = GroupexVec::new(array(1), counters);
    for id in 0..10usize {
        let guard = wrapped.lock(id % 2).unwrap().unwrap();
        let seen = guard.data().fetch_add(1, Ordering::Relaxed);
        assert_eq!(seen, (id / 2) as u32);
        guard.unlock();
    }
    let counters = wrapped.into_vec();
    assert_eq!(counters[0].load(Ordering::Relaxed), 5);
    assert_eq!(counters[1].load(Ordering::Relaxed), 5);
}

fn table(n: u64) -> HashMap<u64, String> {
    (0..n).map(|k| (k, format!("value {k}"))).collect()
}

#[test]
fn map_round_trip_keeps_entries() {
    let entries = table(50);
    let wrapped = GroupexMap::new(array(2), entries.clone());
    assert_eq!(wrapped.into_map(), entries);
}

#[test]
fn map_lock_hands_out_the_value() {
    let wrapped = GroupexMap::new(array(1), table(10));
    let guard = wrapped.lock(7).unwrap().unwrap();
    assert_eq!(guard.data(), "value 7");
    assert!(guard.index() < 32);
    assert_eq!(wrapped.groupex().is_locked(guard.index()), Ok(true));
    let slot = guard.index();
    guard.unlock();
    assert_eq!(wrapped.groupex().is_locked(slot), Ok(false));
}

#[test]
fn map_lock_of_absent_key_is_none() {
    let wrapped = GroupexMap::new(array(1), table(10));
    assert!(matches!(wrapped.lock(10), Ok(None)));
    assert!(matches!(wrapped.lock(u64::MAX), Ok(None)));
    for i in 0..32 {
        assert_eq!(wrapped.groupex().is_locked(i), Ok(false));
    }
    let guard = wrapped.lock(3).unwrap().unwrap();
    guard.unlock();
}

#[test]
fn map_key_keeps_its_slot() {
    let wrapped = GroupexMap::new(array(1), table(10));
    let first = wrapped.lock(4).unwrap().unwrap();
    let slot = first.index();
    first.unlock();
    for _ in 0..5 {
        let again = wrapped.lock(4).unwrap().unwrap();
        assert_eq!(again.index(), slot);
        again.unlock();
    }
}

#[test]
fn map_with_more_keys_than_slots_has_aliasing_keys() {
    let wrapped = GroupexMap::new(array(1), table(33));
    let mut seen: HashMap<usize, u64> = HashMap::new();
    let mut pair = None;
    for key in 0..33u64 {
        let guard = wrapped.lock(key).unwrap().unwrap();
        let slot = guard.index();
        guard.unlock();
        if let Some(&earlier) = seen.get(&slot) {
            pair = Some((earlier, key, slot));
            break;
        }
        seen.insert(slot, key);
    }
    let (a, b, slot) = pair.expect("33 keys on 32 slots must share one");
    assert_ne!(a, b);
    let held = wrapped.lock(a).unwrap().unwrap();
    assert_eq!(held.index(), slot);
    // `b` resolves to the slot held through `a`.
    assert_eq!(wrapped.groupex().try_lock(slot), Ok(false));
    assert_eq!(wrapped.groupex().is_locked(slot), Ok(true));
    held.unlock();
    assert_eq!(wrapped.groupex().is_locked(slot), Ok(false));
}

#[test]
fn map_lock_hashed_uses_the_hash_remainder() {
    let wrapped = GroupexMap::new(array(1), table(10));
    let guard = wrapped.lock_hashed(&6, 100).unwrap().unwrap();
    assert_eq!(guard.index(), 100 % 32);
    assert_eq!(guard.data(), "value 6");
    guard.unlock();
    assert!(matches!(wrapped.lock_hashed(&60, 100), Ok(None)));
}

use groupex::bits::{acquired, clear_mask, get_mask};
use groupex::groupex_map::slot_for_hash;
use groupex::raw_groupex::{slow_step, word_holds, SlowStep, SPIN_LIMIT, WAIT_LIMIT};
use groupex::{AtomicWait, GroupexError, RawGroupex, RawSizedGroupex};

fn array(blocks: usize) -> RawGroupex<AtomicWait> {
    RawGroupex::new(blocks, AtomicWait).unwrap()
}

#[test]
fn zero_words_is_refused() {
    assert!(matches!(
        RawGroupex::new(0, AtomicWait),
        Err(GroupexError::ZeroCapacity)
    ));
}

#[test]
fn slot_count_is_words_times_thirty_two() {
    assert_eq!(array(1).elements(), 32);
    assert_eq!(array(8).elements(), 256);
    assert_eq!(RawSizedGroupex::<3>::new().unwrap().elements(), 96);
}

#[test]
fn masks_select_one_bit_per_slot() {
    assert_eq!(get_mask(0), 1);
    assert_eq!(get_mask(5), 32);
    assert_eq!(get_mask(31), 0x8000_0000);
    assert_eq!(get_mask(32), 1);
    assert_eq!(get_mask(70), 64);
}

#[test]
fn acquisition_is_read_from_the_previous_word() {
    assert!(acquired(0, 3));
    assert!(!acquired(0b1000, 3));
    assert!(!acquired(0b1000, 35));
    assert!(acquired(0b1000, 4));
    assert!(acquired(0xffff_fff7, 3));
    assert!(!acquired(0xffff_fff7, 4));
    assert!(word_holds(0b100, 2));
    assert!(!word_holds(0b100, 1));
    assert!(word_holds(0b100, 34));
}

#[test]
fn lock_then_unlock_leaves_slot_free() {
    let g = array(2);
    for i in [0usize, 1, 31, 32, 63] {
        g.lock(i).unwrap();
        assert_eq!(g.is_locked(i), Ok(true));
        g.unlock(i).unwrap();
        assert_eq!(g.is_locked(i), Ok(false));
        assert_eq!(g.elements(), 64);
    }
}

#[test]
fn lock_leaves_other_slots_alone() {
    let g = array(2);
    g.lock(33).unwrap();
    for i in 0..64 {
        assert_eq!(g.is_locked(i), Ok(i == 33));
    }
    g.unlock(33).unwrap();
}

#[test]
fn try_lock_fails_on_held_slot_and_succeeds_on_free_one() {
    let g = array(1);
    assert_eq!(g.try_lock(7), Ok(true));
    assert_eq!(g.is_locked(7), Ok(true));
    assert_eq!(g.try_lock(7), Ok(false));
    assert_eq!(g.is_locked(7), Ok(true));
    g.unlock(7).unwrap();
    assert_eq!(g.try_lock(7), Ok(true));
    g.unlock(7).unwrap();
}

#[test]
fn out_of_range_indexes_fail_before_touching_any_slot() {
    let g = array(1);
    g.lock(4).unwrap();
    for k in [0usize, 1, 100, usize::MAX - 32] {
        let index = g.elements() + k;
        let err = GroupexError::IndexOutOfRange { index, slots: 32 };
        assert_eq!(g.lock(index), Err(err));
        assert_eq!(g.try_lock(index), Err(err));
        assert_eq!(g.unlock(index), Err(err));
        assert_eq!(g.is_locked(index), Err(err));
    }
    for i in 0..32 {
        assert_eq!(g.is_locked(i), Ok(i == 4));
    }
}

#[test]
fn sized_array_behaves_like_the_runtime_one() {
    let g = RawSizedGroupex::<2>::new().unwrap();
    g.lock(40).unwrap();
    assert_eq!(g.is_locked(40), Ok(true));
    assert_eq!(g.try_lock(40), Ok(false));
    g.unlock(40).unwrap();
    assert_eq!(g.is_locked(40), Ok(false));
    assert_eq!(
        g.lock(64),
        Err(GroupexError::IndexOutOfRange { index: 64, slots: 64 })
    );
}

#[test]
fn alternating_holders_never_overlap() {
    // Ten workers in turn take slot `id % 2`, count themselves in and out.
    let g = array(1);
    let mut inside = [0u32; 2];
    let mut total = [0u32; 2];
    for _round in 0..100 {
        for id in 0..10usize {
            let slot = id % 2;
            g.lock(slot).unwrap();
            inside[slot] += 1;
            assert!(inside[slot] <= 1);
            assert_eq!(g.try_lock(slot), Ok(false));
            total[slot] += 1;
            inside[slot] -= 1;
            g.unlock(slot).unwrap();
        }
    }
    assert_eq!(total, [500, 500]);
    assert_eq!(inside, [0, 0]);
}

#[test]
fn clear_masks_keep_every_other_bit() {
    assert_eq!(clear_mask(0), 0xffff_fffe);
    assert_eq!(clear_mask(35), 0xffff_fff7);
    assert_eq!(clear_mask(31), 0x7fff_ffff);
}

#[test]
fn hashes_pick_their_slot_by_remainder() {
    assert_eq!(slot_for_hash(0, 32), 0);
    assert_eq!(slot_for_hash(77, 32), 13);
    assert_eq!(slot_for_hash(u64::MAX, 64), 63);
    assert_eq!(slot_for_hash(1000, 7), 6);
}

#[test]
fn sized_array_of_zero_words_is_refused() {
    assert!(matches!(
        RawSizedGroupex::<0>::new(),
        Err(GroupexError::ZeroCapacity)
    ));
}

#[test]
fn slow_path_acquires_as_soon_as_the_bit_is_seen_clear() {
    assert_eq!(slow_step(0, 3, 0, 0), SlowStep::Acquired);
    assert_eq!(slow_step(0b0100, 3, SPIN_LIMIT, WAIT_LIMIT), SlowStep::Acquired);
}

#[test]
fn slow_path_spins_with_doubling_pauses_then_waits() {
    let held = 0b1000;
    let pauses: Vec<SlowStep> = (0..SPIN_LIMIT).map(|r| slow_step(held, 3, r, 0)).collect();
    assert_eq!(
        pauses,
        vec![
            SlowStep::Spin(1),
            SlowStep::Spin(2),
            SlowStep::Spin(4),
            SlowStep::Spin(8),
            SlowStep::Spin(16)
        ]
    );
    assert_eq!(slow_step(held, 3, SPIN_LIMIT, 0), SlowStep::Wait);
    assert_eq!(slow_step(held, 35, SPIN_LIMIT, 12345), SlowStep::Wait);
}

#[test]
fn slow_path_gives_up_only_when_the_wait_budget_is_spent() {
    assert_eq!(slow_step(0b1000, 3, SPIN_LIMIT, WAIT_LIMIT - 1), SlowStep::Wait);
    assert_eq!(slow_step(0b1000, 3, SPIN_LIMIT, WAIT_LIMIT), SlowStep::GiveUp);
}

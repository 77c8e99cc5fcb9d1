use sync_benchmarking::driver::{
    expected_total, increment, per_thread_work, run_config, run_workers, Config, Driver, LockKind,
    PayloadKind, AMOUNT_OF_WORK,
};
use sync_benchmarking::{Counter, Large, Small};

#[test]
fn per_thread_share_divides_evenly() {
    assert_eq!(per_thread_work(AMOUNT_OF_WORK, 1), 16000);
    assert_eq!(per_thread_work(AMOUNT_OF_WORK, 2), 8000);
    assert_eq!(per_thread_work(AMOUNT_OF_WORK, 4), 4000);
    assert_eq!(per_thread_work(AMOUNT_OF_WORK, 8), 2000);
    assert_eq!(per_thread_work(AMOUNT_OF_WORK, 16), 1000);
}

#[test]
fn expected_total_matches_when_divisible() {
    for n in [1, 2, 4, 8, 16] {
        assert_eq!(expected_total(AMOUNT_OF_WORK, n), AMOUNT_OF_WORK);
    }
}

#[test]
fn truncation_policy_drops_the_remainder() {
    assert_eq!(per_thread_work(10, 3), 3);
    assert_eq!(expected_total(10, 3), 9);
    assert_eq!(per_thread_work(AMOUNT_OF_WORK, 7), 2285);
    assert_eq!(expected_total(AMOUNT_OF_WORK, 7), 15995);
    let cfg = Config { lock: LockKind::Mutex, payload: PayloadKind::Small, num_threads: 3 };
    assert_eq!(run_config(&cfg, 10), 9);
}

#[test]
fn scenario_small_mutex_four_threads() {
    assert_eq!(per_thread_work(AMOUNT_OF_WORK, 4), 4000);
    let cfg = Config { lock: LockKind::Mutex, payload: PayloadKind::Small, num_threads: 4 };
    assert_eq!(run_config(&cfg, AMOUNT_OF_WORK), 16000);
}

#[test]
fn scenario_large_rwlock_sixteen_threads() {
    assert_eq!(per_thread_work(AMOUNT_OF_WORK, 16), 1000);
    let cfg = Config { lock: LockKind::RwLock, payload: PayloadKind::Large, num_threads: 16 };
    assert_eq!(run_config(&cfg, AMOUNT_OF_WORK), 16000);
}

#[test]
fn single_thread_reaches_the_whole_total() {
    let cfg = Config { lock: LockKind::Mutex, payload: PayloadKind::Small, num_threads: 1 };
    assert_eq!(run_config(&cfg, AMOUNT_OF_WORK), 16000);
    let mut d = Driver::new(AMOUNT_OF_WORK, 1);
    d.run_to_completion();
    assert_eq!(d.counter, 16000);
}

#[test]
fn all_thread_counts_and_disciplines_reach_the_total() {
    for n in [1, 2, 4, 8, 16] {
        for lock in [LockKind::Mutex, LockKind::RwLock] {
            for payload in [PayloadKind::Small, PayloadKind::Large] {
                let cfg = Config { lock, payload, num_threads: n };
                assert_eq!(run_config(&cfg, AMOUNT_OF_WORK), 16000);
            }
        }
    }
}

#[test]
fn same_configuration_twice_gives_the_same_counter() {
    let cfg = Config { lock: LockKind::RwLock, payload: PayloadKind::Small, num_threads: 8 };
    let first = run_config(&cfg, AMOUNT_OF_WORK);
    let second = run_config(&cfg, AMOUNT_OF_WORK);
    assert_eq!(first, second);
}

#[test]
fn increment_adds_one_through_the_counter_handle() {
    let mut p = Small::default();
    increment(&mut p);
    increment(&mut p);
    increment(&mut p);
    assert_eq!(p.counter(), 3);
}

#[test]
fn run_workers_on_both_payloads() {
    let mut s = Small::default();
    run_workers(&mut s, AMOUNT_OF_WORK, 4);
    assert_eq!(s.counter(), 16000);
    let mut l = Large::default();
    run_workers(&mut l, 10, 3);
    assert_eq!(l.counter(), 9);
}

#[test]
fn driver_model_runs_to_the_expected_counter() {
    let mut d = Driver::new(AMOUNT_OF_WORK, 4);
    assert_eq!(d.counter, 0);
    assert_eq!(d.remaining, vec![4000, 4000, 4000, 4000]);
    assert!(!d.is_done());
    d.run_to_completion();
    assert!(d.is_done());
    assert_eq!(d.counter, 16000);
}

#[test]
fn driver_model_accepts_any_interleaving() {
    // Workers may take the lock in any order; the counter still accounts
    // for every increment.  Round-robin here, a burst from one worker there.
    let mut d = Driver::new(12, 3);
    for _round in 0..2 {
        for tid in [0, 1, 2] {
            d.step(tid);
        }
    }
    d.step(2);
    d.step(2);
    d.step(0);
    d.step(1);
    d.step(1);
    d.step(0);
    assert!(d.is_done());
    assert_eq!(d.counter, 12);
}

#[test]
fn driver_model_truncates_uneven_work() {
    let mut d = Driver::new(10, 3);
    assert_eq!(d.remaining, vec![3, 3, 3]);
    d.run_to_completion();
    assert_eq!(d.counter, 9);
}

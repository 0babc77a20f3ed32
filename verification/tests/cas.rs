use std::sync::atomic::AtomicU32;
use std::sync::atomic::AtomicU64;
use std::sync::atomic::Ordering;

use atomics_locks::cas::allocate_id_attempt;
use atomics_locks::cas::get_key;
use atomics_locks::cas::get_key_from;
use atomics_locks::cas::id_available;
use atomics_locks::cas::after_install;
use atomics_locks::cas::increment_attempt;
use atomics_locks::cas::AtomicI32;
use atomics_locks::cas::IdAttempt;
use atomics_locks::cas::ID_LIMIT;

#[test]
fn compare_exchange_succeeds_on_match() {
    let mut a = AtomicI32::new(5);
    assert_eq!(a.compare_exchange(5, 9), Ok(5));
    assert_eq!(a.load(), 9);
}

#[test]
fn compare_exchange_fails_on_mismatch() {
    let mut a = AtomicI32::new(5);
    assert_eq!(a.compare_exchange(4, 9), Err(5));
    assert_eq!(a.load(), 5);
}

#[test]
fn store_then_load() {
    let mut a = AtomicI32::new(1);
    a.store(-7);
    assert_eq!(a.load(), -7);
}

#[test]
fn fetch_add_returns_old_value() {
    let mut a = AtomicI32::new(100);
    let b = a.fetch_add(23);
    let c = a.load();
    assert_eq!(b, 100);
    assert_eq!(c, 123);
}

#[test]
fn fetch_add_wraps() {
    let mut a = AtomicI32::new(i32::MAX);
    assert_eq!(a.fetch_add(1), i32::MAX);
    assert_eq!(a.load(), i32::MIN);
}

#[test]
fn increment_attempt_from_current_value() {
    let a = AtomicU32::new(7);
    assert_eq!(increment_attempt(&a, 7).result, Ok(7));
    assert_eq!(a.load(Ordering::Relaxed), 8);
}

#[test]
fn increment_attempt_from_stale_value() {
    let a = AtomicU32::new(7);
    assert_eq!(increment_attempt(&a, 3).result, Err(7));
    assert_eq!(a.load(Ordering::Relaxed), 7);
}

#[test]
fn increment_loop_counts_up() {
    let a = AtomicU32::new(0);
    for _ in 0..10 {
        let mut current = a.load(Ordering::Relaxed);
        while let Err(v) = increment_attempt(&a, current).result {
            current = v;
        }
    }
    assert_eq!(a.load(Ordering::Relaxed), 10);
}

fn allocate(next_id: &AtomicU32) -> Option<u32> {
    let mut id = next_id.load(Ordering::Relaxed);
    loop {
        if !id_available(id) {
            return None;
        }
        match allocate_id_attempt(next_id, id).0 {
            IdAttempt::Issued(v) => return Some(v),
            IdAttempt::Retry(v) => id = v,
        }
    }
}

#[test]
fn ids_are_issued_in_order() {
    let next_id = AtomicU32::new(0);
    assert_eq!(allocate(&next_id), Some(0));
    assert_eq!(allocate(&next_id), Some(1));
    assert_eq!(allocate(&next_id), Some(2));
    assert_eq!(next_id.load(Ordering::Relaxed), 3);
}

#[test]
fn ids_run_out_at_the_limit() {
    let next_id = AtomicU32::new(ID_LIMIT - 1);
    assert_eq!(allocate(&next_id), Some(999));
    assert_eq!(allocate(&next_id), None);
    assert!(!id_available(1000));
    assert!(id_available(999));
    assert_eq!(next_id.load(Ordering::Relaxed), 1000);
}

#[test]
fn ids_are_distinct_across_threads() {
    let next_id = AtomicU32::new(0);
    let mut all: Vec<u32> = Vec::new();
    crossbeam_utils::thread::scope(|s| {
        let handles: Vec<_> = (0..4)
            .map(|_| s.spawn(|_| (0..100).map(|_| allocate(&next_id).unwrap()).collect::<Vec<u32>>()))
            .collect();
        for h in handles {
            all.extend(h.join().unwrap());
        }
    })
    .unwrap();
    all.sort();
    all.dedup();
    assert_eq!(all.len(), 400);
    assert!(all.iter().all(|&i| i < ID_LIMIT));
}

#[test]
fn key_is_installed_once() {
    let key = AtomicU64::new(0);
    let first = get_key(&key, || 42);
    let second = get_key(&key, || 99);
    assert_eq!(first, 42);
    assert_eq!(second, 42);
    assert_eq!(key.load(Ordering::Relaxed), 42);
}

#[test]
fn key_generator_not_called_when_installed() {
    let key = AtomicU64::new(17);
    let k = get_key(&key, || panic!("generator called"));
    assert_eq!(k, 17);
}

#[test]
fn key_from_installed_value_is_returned_as_read() {
    let key = AtomicU64::new(5);
    let (k, x) = get_key_from(&key, 5, || panic!("generator called"));
    assert_eq!(k, 5);
    assert!(x.is_none());
}

#[test]
fn key_from_empty_installs_generated() {
    let key = AtomicU64::new(0);
    let (k, x) = get_key_from(&key, 0, || 8);
    assert_eq!(k, 8);
    assert_eq!(x.unwrap().result, Ok(0));
    assert_eq!(key.load(Ordering::Relaxed), 8);
}

#[test]
fn key_from_lost_race_returns_other_key() {
    let key = AtomicU64::new(31);
    let (k, x) = get_key_from(&key, 0, || 8);
    assert_eq!(k, 31);
    assert_eq!(x.unwrap().result, Err(31));
    assert_eq!(key.load(Ordering::Relaxed), 31);
}

#[test]
fn after_install_outcomes() {
    assert_eq!(after_install(Ok(0u64), 12), (12, false));
    assert_eq!(after_install(Err(44u64), 12), (44, true));
}

#[test]
fn allocate_round_reports_exchange() {
    let next_id = AtomicU32::new(4);
    let (r, x) = allocate_id_attempt(&next_id, 4);
    assert!(matches!(r, IdAttempt::Issued(4)));
    assert_eq!(x.result, Ok(4));
    assert_eq!(next_id.load(Ordering::Relaxed), 5);
}

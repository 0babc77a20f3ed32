use std::sync::atomic::AtomicU32;
use std::sync::atomic::Ordering;

use atomics_locks::mutex::acquired_after_swap as mutex_acquired_after_swap;
use atomics_locks::mutex::must_wake;
use atomics_locks::mutex::should_spin;
use atomics_locks::mutex::Mutex;
use atomics_locks::mutex::MutexGuard;
use atomics_locks::mutex::CONTENDED;
use atomics_locks::mutex::LOCKED;
use atomics_locks::mutex::SPIN_LIMIT;
use atomics_locks::mutex::UNLOCKED;
use atomics_locks::spin_lock::acquired_after_swap;
use atomics_locks::spin_lock::Guard;
use atomics_locks::spin_lock::SpinLock;

fn spin_lock(l: &SpinLock) -> Guard<'_> {
    loop {
        if let (Some(g), _) = l.try_lock() {
            return g;
        }
        std::hint::spin_loop();
    }
}

fn lock(m: &Mutex) -> MutexGuard<'_> {
    if let (Some(g), _) = m.try_lock() {
        return g;
    }
    if let (Some(g), _) = m.lock_contended_spin() {
        return g;
    }
    loop {
        if let (Some(g), _, _) = m.lock_contended_round() {
            return g;
        }
    }
}

#[test]
fn spin_swap_decision() {
    assert!(acquired_after_swap(false));
    assert!(!acquired_after_swap(true));
}

#[test]
fn spin_lock_is_exclusive() {
    let l = SpinLock::new();
    let (g, x) = l.try_lock();
    assert!(!x.prev);
    let g = g.expect("free lock");
    let (none, x) = l.try_lock();
    assert!(none.is_none());
    assert!(x.prev);
    g.unlock();
    let g2 = l.try_lock().0.expect("released lock");
    g2.unlock();
}

#[test]
fn spin_lock_raw_unlock() {
    let l = SpinLock::new();
    let g = l.try_lock().0.unwrap();
    l.unlock(g);
    assert!(l.try_lock().0.is_some());
}

#[test]
fn spin_lock_counts_across_threads() {
    let l = SpinLock::new();
    let counter = AtomicU32::new(0);
    crossbeam_utils::thread::scope(|s| {
        for _ in 0..4 {
            s.spawn(|_| {
                for _ in 0..1000 {
                    let g = spin_lock(&l);
                    let v = counter.load(Ordering::Relaxed);
                    counter.store(v + 1, Ordering::Relaxed);
                    g.unlock();
                }
            });
        }
    })
    .unwrap();
    assert_eq!(counter.load(Ordering::Relaxed), 4000);
}

#[test]
fn mutex_decisions() {
    assert!(mutex_acquired_after_swap(UNLOCKED));
    assert!(!mutex_acquired_after_swap(LOCKED));
    assert!(!mutex_acquired_after_swap(CONTENDED));
    assert!(must_wake(CONTENDED));
    assert!(!must_wake(LOCKED));
    assert!(should_spin(LOCKED, 0));
    assert!(should_spin(LOCKED, SPIN_LIMIT - 1));
    assert!(!should_spin(LOCKED, SPIN_LIMIT));
    assert!(!should_spin(CONTENDED, 0));
    assert!(!should_spin(UNLOCKED, 0));
}

#[test]
fn mutex_fast_path_is_exclusive() {
    let m = Mutex::new();
    let (g, x) = m.try_lock();
    assert_eq!(x.result, Ok(UNLOCKED));
    let g = g.expect("free mutex");
    assert!(std::ptr::eq(g.mutex(), &m));
    let (none, x) = m.try_lock();
    assert!(none.is_none());
    assert_eq!(x.result, Err(LOCKED));
    assert!(m.lock_contended_spin().0.is_none());
    g.unlock();
    let g2 = m.lock_contended_spin().0.expect("released mutex");
    g2.unlock();
}

#[test]
fn mutex_contended_round_takes_free_mutex() {
    let m = Mutex::new();
    let (g, x, _) = m.lock_contended_round();
    assert_eq!(x.prev, UNLOCKED);
    let g = g.expect("free mutex");
    let (none, x) = m.try_lock();
    assert!(none.is_none());
    assert_eq!(x.result, Err(CONTENDED));
    let (swap, woke) = g.unlock();
    assert_eq!(swap.prev, CONTENDED);
    assert!(woke);
    assert!(m.try_lock().0.is_some());
}

#[test]
fn mutex_counts_across_threads() {
    let m = Mutex::new();
    let counter = AtomicU32::new(0);
    crossbeam_utils::thread::scope(|s| {
        for _ in 0..4 {
            s.spawn(|_| {
                for _ in 0..10_000 {
                    let g = lock(&m);
                    let v = counter.load(Ordering::Relaxed);
                    counter.store(v + 1, Ordering::Relaxed);
                    g.unlock();
                }
            });
        }
    })
    .unwrap();
    assert_eq!(counter.load(Ordering::Relaxed), 40_000);
}

use std::sync::atomic::AtomicI32;
use std::sync::atomic::Ordering;
use std::time::Duration;

use crossbeam_utils::sync::Parker;
use crossbeam_utils::thread;

use atomics_locks::condvar::should_notify;
use atomics_locks::condvar::Condvar;
use atomics_locks::mutex::Mutex;
use atomics_locks::mutex::MutexGuard;

fn lock(m: &Mutex) -> MutexGuard<'_> {
    if let (Some(g), _) = m.try_lock() {
        return g;
    }
    if let (Some(g), _) = m.lock_contended_spin() {
        return g;
    }
    loop {
        if let (Some(g), _, _) = m.lock_contended_round() {
            return g;
        }
    }
}

fn sleep(d: Duration) {
    Parker::new().park_timeout(d);
}

#[test]
fn test_condvar() {
    let mutex = Mutex::new();
    let value = AtomicI32::new(0);
    let condvar = Condvar::new();

    let mut wakeups = 0;

    thread::scope(|s| {
        s.spawn(|_| {
            sleep(Duration::from_secs(1));
            let g = lock(&mutex);
            value.store(123, Ordering::Relaxed);
            g.unlock();
            condvar.notify_one();
        });

        let mut m = lock(&mutex);
        while value.load(Ordering::Relaxed) < 100 {
            let (released, _) = condvar.wait(m);
            m = lock(released);
            wakeups += 1;
        }

        assert_eq!(value.load(Ordering::Relaxed), 123);
        m.unlock();
    })
    .unwrap();

    assert!(wakeups < 10);
}

#[test]
fn notify_decision() {
    assert!(!should_notify(0));
    assert!(should_notify(1));
    assert!(should_notify(5));
}

#[test]
fn notify_without_waiters_is_harmless() {
    let c = Condvar::new();
    let (waiters, bump) = c.notify_one();
    assert_eq!(waiters, 0);
    assert!(bump.is_none());
    let (waiters, bump) = c.notify_all();
    assert_eq!(waiters, 0);
    assert!(bump.is_none());
}

#[test]
fn notify_all_wakes_every_waiter() {
    let mutex = Mutex::new();
    let ready = AtomicI32::new(0);
    let done = AtomicI32::new(0);
    let condvar = Condvar::new();
    thread::scope(|s| {
        for _ in 0..3 {
            s.spawn(|_| {
                let mut m = lock(&mutex);
                while ready.load(Ordering::Relaxed) == 0 {
                    let (released, _) = condvar.wait(m);
                    m = lock(released);
                }
                m.unlock();
                done.fetch_add(1, Ordering::Relaxed);
            });
        }
        sleep(Duration::from_millis(200));
        let g = lock(&mutex);
        ready.store(1, Ordering::Relaxed);
        g.unlock();
        while done.load(Ordering::Relaxed) < 3 {
            condvar.notify_all();
            sleep(Duration::from_millis(10));
        }
    })
    .unwrap();
    assert_eq!(done.load(Ordering::Relaxed), 3);
}

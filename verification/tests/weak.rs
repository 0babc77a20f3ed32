use std::sync::atomic::AtomicUsize;
use std::sync::atomic::Ordering;

use atomics_locks::weak::is_dead;
use atomics_locks::weak::is_locked;
use atomics_locks::weak::release_outcome;
use atomics_locks::weak::Arc;
use atomics_locks::weak::Downgrade;
use atomics_locks::weak::Released;
use atomics_locks::weak::Upgrade;
use atomics_locks::weak::Weak;

fn downgrade<T>(a: &Arc<T>) -> Weak<T> {
    let mut n = a.alloc_count();
    loop {
        assert!(n == usize::MAX || n < usize::MAX - 1);
        match Weak::downgrade_from(a, n).0 {
            Downgrade::Downgraded(w) => return w,
            Downgrade::Retry(e) => n = e,
            Downgrade::Locked => n = a.alloc_count(),
        }
    }
}

fn upgrade<T>(w: &Weak<T>) -> Option<Arc<T>> {
    let mut n = w.data_count();
    loop {
        assert!(n < usize::MAX);
        match w.upgrade_from(n).0 {
            Upgrade::Dead => return None,
            Upgrade::Upgraded(a) => return Some(a),
            Upgrade::Retry(e) => n = e,
        }
    }
}

struct DetectDrop(std::sync::Arc<AtomicUsize>);

impl Drop for DetectDrop {
    fn drop(&mut self) {
        self.0.fetch_add(1, Ordering::Relaxed);
    }
}

#[test]
fn decisions() {
    assert!(is_dead(0));
    assert!(!is_dead(1));
    assert!(is_locked(usize::MAX));
    assert!(!is_locked(1));
}

#[test]
fn upgrade_while_alive() {
    let a = Arc::new(7);
    let w = downgrade(&a);
    let b = upgrade(&w).expect("data alive");
    assert_eq!(*b.get(), 7);
    assert!(matches!(b.release().0, Released::Kept));
    assert!(matches!(a.release().0, Released::DataGone));
    assert!(upgrade(&w).is_none());
    assert!(w.release().0);
}

#[test]
fn upgrade_round_from_zero_is_dead() {
    let a = Arc::new(1);
    let w = downgrade(&a);
    let (u, x) = w.upgrade_from(0);
    assert!(matches!(u, Upgrade::Dead));
    assert!(x.is_none());
    let (d, x) = Weak::downgrade_from(&a, usize::MAX);
    assert!(matches!(d, Downgrade::Locked));
    assert!(x.is_none());
    assert!(!w.release().0);
    let (r, data, share) = a.release();
    assert!(matches!(r, Released::Freed));
    assert_eq!(data.prev, 1);
    let (last, share) = share.unwrap();
    assert!(last);
    assert_eq!(share.prev, 1);
}

#[test]
fn last_arc_without_weak_frees() {
    let a = Arc::new(String::from("x"));
    assert_eq!(a.len(), 1);
    assert!(matches!(a.release().0, Released::Freed));
}

#[test]
fn get_mut_refuses_with_weak() {
    let mut a = Arc::new(3);
    *Weak::get_mut(&mut a).0.unwrap() = 4;
    assert_eq!(*a.get(), 4);
    let w = downgrade(&a);
    let (r, steps) = Weak::get_mut(&mut a);
    assert!(r.is_none());
    assert_eq!(steps.lock.result, Err(2));
    assert!(steps.data_count.is_none());
    let (w2, x) = w.try_clone();
    assert_eq!(x.prev, 2);
    let w2 = w2.unwrap();
    let (last, x) = w.release();
    assert!(!last);
    assert_eq!(x.prev, 3);
    assert!(!w2.release().0);
    let (r, steps) = Weak::get_mut(&mut a);
    assert!(r.is_some());
    assert_eq!(steps.lock.result, Ok(1));
    assert_eq!(steps.data_count, Some(1));
    assert_eq!(a.alloc_count(), 1);
}

#[test]
fn data_destructor_runs_with_the_allocation() {
    let drops = std::sync::Arc::new(AtomicUsize::new(0));
    let a = Arc::new(DetectDrop(drops.clone()));
    let w = downgrade(&a);
    assert_eq!(w.data_count(), 1);
    assert!(matches!(a.release().0, Released::DataGone));
    assert_eq!(drops.load(Ordering::Relaxed), 0);
    assert!(upgrade(&w).is_none());
    assert!(w.release().0);
    assert_eq!(drops.load(Ordering::Relaxed), 1);
}

#[test]
fn release_outcome_decision() {
    assert!(matches!(release_outcome(2, false), Released::Kept));
    assert!(matches!(release_outcome(1, false), Released::DataGone));
    assert!(matches!(release_outcome(1, true), Released::Freed));
}

#[test]
fn rounds_report_exchange() {
    let a = Arc::new(0);
    let (w, x) = Weak::downgrade_from(&a, 1);
    assert!(matches!(w, Downgrade::Downgraded(_)));
    assert_eq!(x.unwrap().result, Ok(1));
    let w = match w {
        Downgrade::Downgraded(w) => w,
        _ => unreachable!(),
    };
    let (u, x) = w.upgrade_from(1);
    assert_eq!(x.unwrap().result, Ok(1));
    let b = match u {
        Upgrade::Upgraded(b) => b,
        _ => unreachable!(),
    };
    assert!(matches!(b.release().0, Released::Kept));
    assert!(!w.release().0);
    assert!(matches!(a.release().0, Released::Freed));
}

use std::sync::atomic::AtomicUsize;
use std::sync::atomic::Ordering;

use atomics_locks::arc::is_unique;
use atomics_locks::arc::must_abort;
use atomics_locks::arc::was_last;
use atomics_locks::arc::Arc;

struct DetectDrop(std::sync::Arc<AtomicUsize>);

impl Drop for DetectDrop {
    fn drop(&mut self) {
        self.0.fetch_add(1, Ordering::Relaxed);
    }
}

#[test]
fn test() {
    let num_drops = std::sync::Arc::new(AtomicUsize::new(0));

    let x = Arc::new(("hello", DetectDrop(num_drops.clone())));
    let (y, x1) = x.try_clone();
    assert_eq!(x1.prev, 1);
    let y = y.unwrap();

    crossbeam_utils::thread::scope(|s| {
        let t = s.spawn(move |_| {
            assert_eq!(x.0, "hello");
            let (last, x2) = x.release();
            assert!(!last);
            assert_eq!(x2.prev, 2);
        });

        assert_eq!(y.0, "hello");

        t.join().unwrap();
    })
    .unwrap();

    assert_eq!(num_drops.load(Ordering::Relaxed), 0);

    let (last, y1) = y.release();
    assert!(last);
    assert_eq!(y1.prev, 1);

    assert_eq!(num_drops.load(Ordering::Relaxed), 1);
}

#[test]
fn count_decisions() {
    assert!(!must_abort(1));
    assert!(!must_abort(usize::MAX / 2));
    assert!(must_abort(usize::MAX / 2 + 1));
    assert!(was_last(1));
    assert!(!was_last(2));
    assert!(is_unique(1));
    assert!(!is_unique(2));
}

#[test]
fn get_mut_only_when_unique() {
    let mut a = Arc::new(5);
    *Arc::get_mut(&mut a).0.unwrap() += 1;
    assert_eq!(*a.get(), 6);
    let b = a.try_clone().0.unwrap();
    let (r, count) = Arc::get_mut(&mut a);
    assert!(r.is_none());
    assert_eq!(count, 2);
    assert!(!b.release().0);
    assert!(Arc::get_mut(&mut a).0.is_some());
    assert!(a.release().0);
}

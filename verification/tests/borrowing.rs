use atomics_locks::borrowing::f;
use atomics_locks::borrowing::x;

#[test]
fn f_increments_the_mutable_borrow() {
    let a = 1;
    let mut b = 1;
    f(&a, &mut b);
    assert_eq!(a, 1);
    assert_eq!(b, 2);
}

#[test]
fn x_does_nothing() {
    x();
}

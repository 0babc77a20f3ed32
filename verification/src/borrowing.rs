//! Borrowing rules exclude data races: while one variable is borrowed mutably, a shared
//! borrow of another cannot see its value change.
use vstd::prelude::*;

verus! {

/// Adds one to `*b` and reads `*a` before and after. Since `a` is a shared borrow and `b`
/// a mutable one, they cannot point to the same place, so the two reads agree and `x` is
/// never called.
pub fn f(a: &i32, b: &mut i32)
    requires
        *old(b) < i32::MAX,
    ensures
        *final(b) == *old(b) + 1,
{
    let before = *a;
    *b = *b + 1;
    let after = *a;
    assert(before == after);
    if before != after {
        x();
    }
}

/// Stands for whatever would have to happen if the value had changed.
pub fn x() {
}

} // verus!

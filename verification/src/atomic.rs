//! Contracts for the std and `atomic_wait` operations the library builds on.
//!
//! vstd lets verified code call every `std::sync::atomic` operation but says nothing of
//! the values they return: another thread may have changed the atomic at any moment.
//! What std does document of a compare-and-exchange, which previous value it hands back
//! on success and on failure, is stated here, one wrapper per std function. Each wrapper
//! also hands back, as a ghost, the operand it passed to std, so that the contracts of
//! the library's rounds can say what each round asked its atomic to do.
use std::sync::atomic::AtomicU32;
use std::sync::atomic::AtomicU64;
use std::sync::atomic::AtomicUsize;
use std::sync::atomic::Ordering;
use vstd::prelude::*;

use crate::observed::Exchanged;
use crate::observed::Updated;
use crate::observed::Wake;
use std::sync::atomic::AtomicBool;

verus! {

/// The orderings std accepts for the failure case of a compare-and-exchange; with
/// `Release` or `AcqRel` the call panics.
pub open spec fn failure_ordering_valid(failure: Ordering) -> bool {
    failure == Ordering::Relaxed || failure == Ordering::Acquire || failure == Ordering::SeqCst
}

/// `AtomicU32::compare_exchange`: std writes `new` only when the value equals `current`,
/// so an `Ok` carries `current` and an `Err` carries a value different from it.
/// std panics when `failure` is `Release` or `AcqRel`; `requires` leaves those out.
#[verifier::external_body]
pub(crate) fn compare_exchange_u32(
    a: &AtomicU32,
    current: u32,
    new: u32,
    success: Ordering,
    failure: Ordering,
) -> (r: Exchanged<u32>)
    requires
        failure_ordering_valid(failure),
    ensures
        r.new@ == new,
        r.result matches Ok(v) ==> v == current,
        r.result matches Err(v) ==> v != current,
{
    Exchanged { result: a.compare_exchange(current, new, success, failure), new: Ghost(new) }
}

/// `AtomicU32::compare_exchange_weak`: an `Ok` carries `current`; an `Err` may be
/// spurious and carry `current` too.
/// std panics when `failure` is `Release` or `AcqRel`; `requires` leaves those out.
#[verifier::external_body]
pub(crate) fn compare_exchange_weak_u32(
    a: &AtomicU32,
    current: u32,
    new: u32,
    success: Ordering,
    failure: Ordering,
) -> (r: Exchanged<u32>)
    requires
        failure_ordering_valid(failure),
    ensures
        r.new@ == new,
        r.result matches Ok(v) ==> v == current,
{
    Exchanged { result: a.compare_exchange_weak(current, new, success, failure), new: Ghost(new) }
}

/// `AtomicU64::compare_exchange`: an `Ok` carries `current`, an `Err` a value that differs
/// from it.
/// std panics when `failure` is `Release` or `AcqRel`; `requires` leaves those out.
#[verifier::external_body]
pub(crate) fn compare_exchange_u64(
    a: &AtomicU64,
    current: u64,
    new: u64,
    success: Ordering,
    failure: Ordering,
) -> (r: Exchanged<u64>)
    requires
        failure_ordering_valid(failure),
    ensures
        r.new@ == new,
        r.result matches Ok(v) ==> v == current,
        r.result matches Err(v) ==> v != current,
{
    Exchanged { result: a.compare_exchange(current, new, success, failure), new: Ghost(new) }
}

/// `AtomicUsize::compare_exchange`: an `Ok` carries `current`, an `Err` a value that
/// differs from it.
/// std panics when `failure` is `Release` or `AcqRel`; `requires` leaves those out.
#[verifier::external_body]
pub(crate) fn compare_exchange_usize(
    a: &AtomicUsize,
    current: usize,
    new: usize,
    success: Ordering,
    failure: Ordering,
) -> (r: Exchanged<usize>)
    requires
        failure_ordering_valid(failure),
    ensures
        r.new@ == new,
        r.result matches Ok(v) ==> v == current,
        r.result matches Err(v) ==> v != current,
{
    Exchanged { result: a.compare_exchange(current, new, success, failure), new: Ghost(new) }
}

/// `AtomicUsize::compare_exchange_weak`: an `Ok` carries `current`; an `Err` may be
/// spurious.
/// std panics when `failure` is `Release` or `AcqRel`; `requires` leaves those out.
#[verifier::external_body]
pub(crate) fn compare_exchange_weak_usize(
    a: &AtomicUsize,
    current: usize,
    new: usize,
    success: Ordering,
    failure: Ordering,
) -> (r: Exchanged<usize>)
    requires
        failure_ordering_valid(failure),
    ensures
        r.new@ == new,
        r.result matches Ok(v) ==> v == current,
{
    Exchanged { result: a.compare_exchange_weak(current, new, success, failure), new: Ghost(new) }
}

/// `atomic_wait::wait`: blocks while the atomic holds `expected` until a wake call, and
/// may return spuriously; nothing is promised about when it returns. Returns, as a ghost,
/// the value it was asked to wait on.
#[verifier::external_body]
pub(crate) fn futex_wait(a: &AtomicU32, expected: u32) -> (waited_on: Ghost<u32>)
    ensures
        waited_on@ == expected,
{
    atomic_wait::wait(a, expected);
    Ghost(expected)
}

/// `atomic_wait::wake_one`: wakes at most one thread blocked in `wait` on this atomic.
/// Returns, as a ghost, which wake it made.
#[verifier::external_body]
pub(crate) fn futex_wake_one(a: &AtomicU32) -> (w: Ghost<Wake>)
    ensures
        w@ == Wake::One,
{
    atomic_wait::wake_one(a);
    Ghost(Wake::One)
}

/// `atomic_wait::wake_all`: wakes every thread blocked in `wait` on this atomic.
/// Returns, as a ghost, which wake it made.
#[verifier::external_body]
pub(crate) fn futex_wake_all(a: &AtomicU32) -> (w: Ghost<Wake>)
    ensures
        w@ == Wake::All,
{
    atomic_wait::wake_all(a);
    Ghost(Wake::All)
}

/// The orderings std accepts for a store; with `Acquire` or `AcqRel` it panics.
pub open spec fn store_ordering_valid(order: Ordering) -> bool {
    order == Ordering::Relaxed || order == Ordering::Release || order == Ordering::SeqCst
}

/// `AtomicBool::swap`: stores `v` and returns the value it replaced. Returns `v` too, as
/// a ghost.
#[verifier::external_body]
pub(crate) fn swap_bool(a: &AtomicBool, v: bool, order: Ordering) -> (r: Updated<bool>)
    ensures
        r.operand@ == v,
{
    Updated { prev: a.swap(v, order), operand: Ghost(v) }
}

/// `AtomicU32::swap`: stores `v` and returns the value it replaced. Returns `v` too, as
/// a ghost.
#[verifier::external_body]
pub(crate) fn swap_u32(a: &AtomicU32, v: u32, order: Ordering) -> (r: Updated<u32>)
    ensures
        r.operand@ == v,
{
    Updated { prev: a.swap(v, order), operand: Ghost(v) }
}

/// `AtomicBool::store`: stores `v`, and returns it as a ghost. std panics on an `Acquire` or
/// `AcqRel` ordering, which `requires` leaves out.
#[verifier::external_body]
pub(crate) fn store_bool(a: &AtomicBool, v: bool, order: Ordering) -> (stored: Ghost<bool>)
    requires
        store_ordering_valid(order),
    ensures
        stored@ == v,
{
    a.store(v, order);
    Ghost(v)
}

/// `AtomicUsize::store`: stores `v`, and returns it as a ghost. std panics on an `Acquire` or
/// `AcqRel` ordering, which `requires` leaves out.
#[verifier::external_body]
pub(crate) fn store_usize(a: &AtomicUsize, v: usize, order: Ordering) -> (stored: Ghost<usize>)
    requires
        store_ordering_valid(order),
    ensures
        stored@ == v,
{
    a.store(v, order);
    Ghost(v)
}

/// `AtomicU32::fetch_add`: adds `v`, wrapping around on overflow, and returns the value it
/// replaced. Returns `v` too, as a ghost.
#[verifier::external_body]
pub(crate) fn fetch_add_u32(a: &AtomicU32, v: u32, order: Ordering) -> (r: Updated<u32>)
    ensures
        r.operand@ == v,
{
    Updated { prev: a.fetch_add(v, order), operand: Ghost(v) }
}

/// `AtomicUsize::fetch_add`: adds `v`, wrapping around on overflow, and returns the value
/// it replaced. Returns `v` too, as a ghost.
#[verifier::external_body]
pub(crate) fn fetch_add_usize(a: &AtomicUsize, v: usize, order: Ordering) -> (r: Updated<usize>)
    ensures
        r.operand@ == v,
{
    Updated { prev: a.fetch_add(v, order), operand: Ghost(v) }
}

/// `AtomicUsize::fetch_sub`: subtracts `v`, wrapping around on overflow, and returns the
/// value it replaced. Returns `v` too, as a ghost.
#[verifier::external_body]
pub(crate) fn fetch_sub_usize(a: &AtomicUsize, v: usize, order: Ordering) -> (r: Updated<usize>)
    ensures
        r.operand@ == v,
{
    Updated { prev: a.fetch_sub(v, order), operand: Ghost(v) }
}

/// `std::hint::spin_loop`: a hint to the processor inside a busy-wait loop; no effect on
/// any value.
#[verifier::external_body]
pub(crate) fn spin_hint() {
    std::hint::spin_loop()
}

/// `std::sync::atomic::fence(Acquire)`: orders memory accesses; no effect on any value.
#[verifier::external_body]
pub(crate) fn acquire_fence() {
    std::sync::atomic::fence(Ordering::Acquire)
}

/// `std::sync::Arc::get_mut`: a mutable reference to the contents when no other `Arc` or
/// `Weak` points to the allocation, `None` otherwise. Stated: the reference reaches the
/// contents, writing through it changes what the `Arc` holds, and `None` leaves the `Arc`
/// as it was. Not stated is which of the two comes back: the std counts are not visible
/// to verified code.
#[verifier::external_body]
pub(crate) fn arc_get_mut<X>(a: &mut std::sync::Arc<X>) -> (r: Option<&mut X>)
    ensures
        r matches Some(x) ==> *x == **old(a) && **final(a) == *final(x),
        r is None ==> *final(a) == *old(a),
{
    std::sync::Arc::get_mut(a)
}

} // verus!

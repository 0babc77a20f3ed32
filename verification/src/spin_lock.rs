//! A spin lock: one atomic flag, set by whoever takes the lock and cleared on release.
use std::sync::atomic::AtomicBool;
use std::sync::atomic::Ordering;
use vstd::prelude::*;

use crate::atomic::store_bool;
use crate::atomic::swap_bool;
use crate::observed::Updated;

verus! {

/// Whether a thread that swapped `true` into the flag and got `prev` back now holds the
/// lock: it does exactly when the flag was clear.
pub open spec fn spin_acquires(prev: bool) -> bool {
    !prev
}

/// Decides, from the value that `swap(true)` returned, whether the lock was taken.
pub fn acquired_after_swap(prev: bool) -> (acquired: bool)
    ensures
        acquired == spin_acquires(prev),
        acquired <==> !prev,
{
    !prev
}

/// A lock that waits by spinning on an atomic flag.
pub struct SpinLock {
    locked: AtomicBool,
}

/// Proof that the lock was taken; it stands for the right to the protected data until it
/// is handed back with `unlock`.
pub struct Guard<'a> {
    lock: &'a SpinLock,
}

impl<'a> Guard<'a> {
    /// The lock this guard holds.
    pub closed spec fn lock_of(&self) -> &'a SpinLock {
        self.lock
    }

    /// Releases the lock: stores `false` in the flag with release ordering, so that what was
    /// written while holding it is visible to the next thread that takes it. Returns the
    /// value stored, as a ghost.
    pub fn unlock(self) -> (stored: Ghost<bool>)
        ensures
            stored@ == false,
    {
        store_bool(&self.lock.locked, false, Ordering::Release)
    }
}

impl SpinLock {
    /// A lock that nobody holds.
    pub fn new() -> (s: Self) {
        SpinLock { locked: AtomicBool::new(false) }
    }

    /// One round of the spin loop of `lock`: swaps `true` into the flag with acquire
    /// ordering, and hands out a guard exactly when the flag it replaced was clear. Returns
    /// the guard, if any, with the swap: the value it replaced and the value it stored. On
    /// `None` the caller spins and tries again.
    pub fn try_lock(&self) -> (r: (Option<Guard<'_>>, Updated<bool>))
        ensures
            r.1.operand@ == true,
            r.0 is Some <==> spin_acquires(r.1.prev),
            r.0 is Some <==> !r.1.prev,
            r.0 matches Some(guard) ==> guard.lock_of() == self,
    {
        let x = swap_bool(&self.locked, true, Ordering::Acquire);
        if acquired_after_swap(x.prev) {
            (Some(Guard { lock: self }), x)
        } else {
            (None, x)
        }
    }

    /// Releases the lock held by `guard`, as the raw interface does; the same as
    /// `guard.unlock()`.
    pub fn unlock(&self, guard: Guard<'_>) -> (stored: Ghost<bool>)
        requires
            guard.lock_of() == self,
        ensures
            stored@ == false,
    {
        guard.unlock()
    }
}

/// Where a thread stands with respect to the lock.
pub enum SpinPc {
    Idle,
    Holding,
}

/// The flag and every thread's position.
pub struct SpinSystem {
    pub locked: bool,
    pub threads: Map<int, SpinPc>,
}

/// A fresh lock with the given threads, none of them holding it.
pub open spec fn spin_init(threads: Set<int>) -> SpinSystem {
    SpinSystem { locked: false, threads: Map::new(|t: int| threads.contains(t), |t: int| SpinPc::Idle) }
}

/// Thread `t` holds the lock.
pub open spec fn spin_holds(s: SpinSystem, t: int) -> bool {
    s.threads.dom().contains(t) && s.threads[t] is Holding
}

/// An idle thread swaps `true` into the flag; it takes the lock when the flag was clear.
pub open spec fn spin_try(s: SpinSystem, t: int) -> SpinSystem {
    let prev = s.locked;
    SpinSystem {
        locked: true,
        threads: s.threads.insert(t, if spin_acquires(prev) { SpinPc::Holding } else { SpinPc::Idle }),
    }
}

/// The holder clears the flag.
pub open spec fn spin_release(s: SpinSystem, t: int) -> SpinSystem {
    SpinSystem { locked: false, threads: s.threads.insert(t, SpinPc::Idle) }
}

/// What holds in every reachable state: the flag is set exactly when some thread holds the
/// lock, and no two threads hold it.
pub open spec fn spin_inv(s: SpinSystem) -> bool {
    &&& s.locked <==> exists|t: int| spin_holds(s, t)
    &&& forall|t1: int, t2: int| spin_holds(s, t1) && spin_holds(s, t2) ==> t1 == t2
}

/// Law: a fresh lock satisfies the invariant.
pub proof fn lemma_spin_init(threads: Set<int>)
    ensures
        spin_inv(spin_init(threads)),
{
}

/// Law: a locking round by an idle thread keeps the invariant; it takes the lock exactly
/// when nobody held it.
pub proof fn lemma_spin_try(s: SpinSystem, t: int)
    requires
        spin_inv(s),
        s.threads.dom().contains(t),
        s.threads[t] is Idle,
    ensures
        spin_inv(spin_try(s, t)),
        spin_holds(spin_try(s, t), t) <==> !exists|u: int| spin_holds(s, u),
{
    let s2 = spin_try(s, t);
    if !s.locked {
        assert forall|t1: int, t2: int| spin_holds(s2, t1) && spin_holds(s2, t2) implies t1 == t2 by {
            if t1 != t {
                assert(spin_holds(s, t1));
            }
            if t2 != t {
                assert(spin_holds(s, t2));
            }
        }
        assert(spin_holds(s2, t));
    } else {
        let h = choose|u: int| spin_holds(s, u);
        assert(spin_holds(s2, h));
        assert forall|t1: int, t2: int| spin_holds(s2, t1) && spin_holds(s2, t2) implies t1 == t2 by {
            assert(spin_holds(s, t1));
            assert(spin_holds(s, t2));
        }
    }
}

/// Law: the holder's release keeps the invariant and leaves the lock free.
pub proof fn lemma_spin_release(s: SpinSystem, t: int)
    requires
        spin_inv(s),
        spin_holds(s, t),
    ensures
        spin_inv(spin_release(s, t)),
        !exists|u: int| spin_holds(spin_release(s, t), u),
{
    let s2 = spin_release(s, t);
    assert forall|u: int| !spin_holds(s2, u) by {
        if u != t && spin_holds(s2, u) {
            assert(spin_holds(s, u));
        }
    }
}

/// Law: a swap of `true` into the flag takes the lock exactly when the flag it replaced
/// was clear.
pub proof fn lemma_spin_decision(prev: bool)
    ensures
        spin_acquires(prev) <==> !prev,
{
}

} // verus!

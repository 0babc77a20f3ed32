//! A mutex on one 32-bit atomic, with futex waiting: 0 is unlocked, 1 locked with no
//! waiter, 2 locked with possible waiters.
use std::sync::atomic::AtomicU32;
use std::sync::atomic::Ordering;
use vstd::prelude::*;

use crate::atomic::compare_exchange_u32;
use crate::atomic::futex_wait;
use crate::atomic::futex_wake_one;
use crate::atomic::spin_hint;
use crate::atomic::swap_u32;
use crate::observed::Exchanged;
use crate::observed::Updated;

verus! {

/// State of a free mutex.
pub const UNLOCKED: u32 = 0;

/// State of a held mutex that no thread waits for.
pub const LOCKED: u32 = 1;

/// State of a held mutex that other threads may be waiting for.
pub const CONTENDED: u32 = 2;

/// How many times a contending thread re-reads the state before it falls back to
/// waiting.
pub const SPIN_LIMIT: u32 = 100;

/// Whether a compare-and-exchange from `UNLOCKED` to `LOCKED` that found `prev` took the
/// mutex: exactly when it was free.
pub open spec fn cas_acquires(prev: u32) -> bool {
    prev == UNLOCKED
}

/// Whether a thread that swapped `CONTENDED` in and got `prev` back now holds the mutex.
pub open spec fn swap_acquires(prev: u32) -> bool {
    prev == UNLOCKED
}

/// Whether the thread that swapped `UNLOCKED` in on release, getting `prev` back, must
/// wake a waiter.
pub open spec fn unlock_wakes(prev: u32) -> bool {
    prev == CONTENDED
}

/// Whether a contending thread keeps spinning after reading `observed`, having spun
/// `spins` times: only while the holder has no waiters, and at most `SPIN_LIMIT` times.
pub open spec fn keeps_spinning(observed: u32, spins: u32) -> bool {
    observed == LOCKED && spins < SPIN_LIMIT
}

/// Decides from the value `swap(CONTENDED)` returned whether the mutex was taken.
pub fn acquired_after_swap(prev: u32) -> (acquired: bool)
    ensures
        acquired == swap_acquires(prev),
        acquired <==> prev == 0,
{
    prev == UNLOCKED
}

/// Decides from the value `swap(UNLOCKED)` returned whether a waiter must be woken.
pub fn must_wake(prev: u32) -> (wake: bool)
    ensures
        wake == unlock_wakes(prev),
        wake <==> prev == 2,
{
    prev == CONTENDED
}

/// Decides whether to spin once more.
pub fn should_spin(observed: u32, spins: u32) -> (spin: bool)
    ensures
        spin == keeps_spinning(observed, spins),
        spin <==> observed == 1 && spins < 100,
{
    observed == LOCKED && spins < SPIN_LIMIT
}

/// A mutex whose waiting threads sleep in the kernel.
pub struct Mutex {
    state: AtomicU32,
}

/// Proof that the mutex was taken, to be handed back with `unlock`.
pub struct MutexGuard<'a> {
    mutex: &'a Mutex,
}

impl<'a> MutexGuard<'a> {
    /// The mutex this guard holds.
    pub closed spec fn mutex_of(&self) -> &'a Mutex {
        self.mutex
    }

    /// The mutex this guard holds.
    pub fn mutex(&self) -> (m: &'a Mutex)
        ensures
            m == self.mutex_of(),
    {
        self.mutex
    }

    /// Releases the mutex: swaps `UNLOCKED` in with release ordering and, if the state it
    /// replaced says there may be waiters, wakes one of them. Returns the swap and whether
    /// it woke a waiter.
    pub fn unlock(self) -> (r: (Updated<u32>, bool))
        ensures
            r.0.operand@ == UNLOCKED,
            r.1 == unlock_wakes(r.0.prev),
            r.0.operand@ == 0,
            r.1 <==> r.0.prev == 2,
    {
        let x = swap_u32(&self.mutex.state, UNLOCKED, Ordering::Release);
        let wake = must_wake(x.prev);
        if wake {
            futex_wake_one(&self.mutex.state);
        }
        (x, wake)
    }
}

impl Mutex {
    /// A mutex that nobody holds.
    pub fn new() -> (m: Self) {
        Mutex { state: AtomicU32::new(UNLOCKED) }
    }

    /// The uncontended path of `lock`: a compare-and-exchange of the state from `UNLOCKED`
    /// to `LOCKED` with acquire ordering. Returns a guard exactly when the exchange
    /// succeeded, which means the state was `UNLOCKED` and is now `LOCKED`, with the
    /// exchange.
    pub fn try_lock(&self) -> (r: (Option<MutexGuard<'_>>, Exchanged<u32>))
        ensures
            r.1.new@ == LOCKED,
            r.1.new@ == 1,
            r.0 is Some <==> r.1.result is Ok,
            r.1.result matches Ok(v) ==> cas_acquires(v) && v == 0,
            r.1.result matches Err(v) ==> v != 0,
            r.1.result matches Err(v) ==> !cas_acquires(v),
            r.0 matches Some(guard) ==> guard.mutex_of() == self,
    {
        let x = compare_exchange_u32(&self.state, UNLOCKED, LOCKED, Ordering::Acquire, Ordering::Relaxed);
        match x.result {
            Ok(_) => (Some(MutexGuard { mutex: self }), x),
            Err(_) => (None, x),
        }
    }

    /// The first part of the contended path: spins while the holder has no waiters, at
    /// most `SPIN_LIMIT` times, then tries once more to take a free mutex as `LOCKED`, with
    /// the outcome and the exchange as `try_lock` returns them.
    pub fn lock_contended_spin(&self) -> (r: (Option<MutexGuard<'_>>, Exchanged<u32>))
        ensures
            r.1.new@ == LOCKED,
            r.1.new@ == 1,
            r.0 is Some <==> r.1.result is Ok,
            r.1.result matches Ok(v) ==> cas_acquires(v) && v == 0,
            r.1.result matches Err(v) ==> v != 0,
            r.1.result matches Err(v) ==> !cas_acquires(v),
            r.0 matches Some(guard) ==> guard.mutex_of() == self,
    {
        let mut spins: u32 = 0;
        loop
            invariant
                spins <= SPIN_LIMIT,
            decreases SPIN_LIMIT - spins,
        {
            let observed = self.state.load(Ordering::Relaxed);
            if !should_spin(observed, spins) {
                break;
            }
            spins = spins + 1;
            spin_hint();
        }
        self.try_lock()
    }

    /// One round of the contended loop: swaps `CONTENDED` in with acquire ordering. Returns
    /// a guard exactly when the state it replaced was `UNLOCKED`; otherwise the thread
    /// waits on the futex while the state is `CONTENDED`, and the caller tries again.
    /// Returns the swap and, as a ghost, the value waited on (`None` when it did not wait).
    pub fn lock_contended_round(&self) -> (r: (Option<MutexGuard<'_>>, Updated<u32>, Ghost<Option<u32>>))
        ensures
            r.1.operand@ == CONTENDED,
            r.1.operand@ == 2,
            r.0 is Some <==> swap_acquires(r.1.prev),
            r.0 is Some <==> r.1.prev == 0,
            r.0 is None ==> r.2@ == Some(2u32),
            r.0 is Some ==> r.2@ is None,
            r.0 is None ==> r.2@ == Some(CONTENDED),
            r.0 matches Some(guard) ==> guard.mutex_of() == self,
    {
        let x = swap_u32(&self.state, CONTENDED, Ordering::Acquire);
        if acquired_after_swap(x.prev) {
            (Some(MutexGuard { mutex: self }), x, Ghost(None))
        } else {
            let waited = futex_wait(&self.state, CONTENDED);
            (None, x, Ghost(Some(waited@)))
        }
    }
}

/// Where a thread stands in the locking protocol.
pub enum MutexPc {
    /// Not using the mutex.
    Idle,
    /// Its fast attempt failed; spinning, then one more attempt.
    Spinning,
    /// About to swap `CONTENDED` in.
    Contending,
    /// Its swap found the mutex held; about to wait while the state is `CONTENDED`.
    AboutToWait,
    /// Asleep in the kernel.
    Sleeping,
    /// Holds the mutex.
    Holding,
    /// Released the mutex and found waiters; about to wake one.
    Waking,
}

/// The state word and every thread's position.
pub struct MutexSystem {
    pub state: u32,
    pub threads: Map<int, MutexPc>,
}

/// Thread `t` is at `pc`.
pub open spec fn mutex_at(s: MutexSystem, t: int, pc: MutexPc) -> bool {
    s.threads.dom().contains(t) && s.threads[t] == pc
}

/// Thread `t` holds the mutex.
pub open spec fn mutex_holds(s: MutexSystem, t: int) -> bool {
    mutex_at(s, t, MutexPc::Holding)
}

/// Thread `t` is still going to act on the state word by itself: it will swap
/// `CONTENDED` in, or wake a sleeper.
pub open spec fn mutex_active(s: MutexSystem, t: int) -> bool {
    mutex_at(s, t, MutexPc::Contending) || mutex_at(s, t, MutexPc::AboutToWait) || mutex_at(
        s,
        t,
        MutexPc::Waking,
    )
}

/// A fresh mutex with the given threads, all idle.
pub open spec fn mutex_init(threads: Set<int>) -> MutexSystem {
    MutexSystem {
        state: UNLOCKED,
        threads: Map::new(|t: int| threads.contains(t), |t: int| MutexPc::Idle),
    }
}

/// Thread `t` moves to `pc`, the state word becomes `state`.
pub open spec fn mutex_step(s: MutexSystem, t: int, state: u32, pc: MutexPc) -> MutexSystem {
    MutexSystem { state, threads: s.threads.insert(t, pc) }
}

/// Fast attempt by an idle thread (or the attempt after spinning): a compare-and-exchange
/// from `UNLOCKED` to `LOCKED`.
pub open spec fn mutex_cas(s: MutexSystem, t: int, on_failure: MutexPc) -> MutexSystem {
    if cas_acquires(s.state) {
        mutex_step(s, t, LOCKED, MutexPc::Holding)
    } else {
        mutex_step(s, t, s.state, on_failure)
    }
}

/// A contending thread swaps `CONTENDED` in.
pub open spec fn mutex_swap(s: MutexSystem, t: int) -> MutexSystem {
    mutex_step(
        s,
        t,
        CONTENDED,
        if swap_acquires(s.state) { MutexPc::Holding } else { MutexPc::AboutToWait },
    )
}

/// The futex wait: the thread sleeps only if the state is still `CONTENDED`.
pub open spec fn mutex_wait(s: MutexSystem, t: int) -> MutexSystem {
    mutex_step(
        s,
        t,
        s.state,
        if s.state == CONTENDED { MutexPc::Sleeping } else { MutexPc::Contending },
    )
}

/// The holder swaps `UNLOCKED` in, and goes on to wake a sleeper when there may be one.
pub open spec fn mutex_unlock(s: MutexSystem, t: int) -> MutexSystem {
    mutex_step(
        s,
        t,
        UNLOCKED,
        if unlock_wakes(s.state) { MutexPc::Waking } else { MutexPc::Idle },
    )
}

/// The waker wakes sleeper `w`, which goes back to contending.
pub open spec fn mutex_wake(s: MutexSystem, t: int, w: int) -> MutexSystem {
    MutexSystem {
        state: s.state,
        threads: s.threads.insert(t, MutexPc::Idle).insert(w, MutexPc::Contending),
    }
}

/// The waker finds no sleeper.
pub open spec fn mutex_wake_none(s: MutexSystem, t: int) -> MutexSystem {
    mutex_step(s, t, s.state, MutexPc::Idle)
}

/// The next states a thread can move the system to.
pub open spec fn mutex_next(s: MutexSystem, s2: MutexSystem) -> bool {
    exists|t: int|
        #![trigger s.threads[t]]
        s.threads.dom().contains(t) && match s.threads[t] {
            MutexPc::Idle => s2 == mutex_cas(s, t, MutexPc::Spinning),
            MutexPc::Spinning => s2 == mutex_cas(s, t, MutexPc::Contending),
            MutexPc::Contending => s2 == mutex_swap(s, t),
            MutexPc::AboutToWait => s2 == mutex_wait(s, t),
            MutexPc::Sleeping => s2 == mutex_step(s, t, s.state, MutexPc::Contending),
            MutexPc::Holding => s2 == mutex_unlock(s, t),
            MutexPc::Waking => if exists|w: int| mutex_at(s, w, MutexPc::Sleeping) {
                exists|w: int| mutex_at(s, w, MutexPc::Sleeping) && s2 == mutex_wake(s, t, w)
            } else {
                s2 == mutex_wake_none(s, t)
            },
        }
}

/// What holds in every reachable state: the word is one of the three states; it is
/// nonzero exactly when some thread holds the mutex; no two threads hold it; and whenever
/// a thread sleeps, either the word says `CONTENDED`, so that the next release wakes
/// someone, or some thread is still going to swap `CONTENDED` in or wake a sleeper.
pub open spec fn mutex_inv(s: MutexSystem) -> bool {
    &&& s.state <= CONTENDED
    &&& (s.state != UNLOCKED <==> exists|t: int| mutex_holds(s, t))
    &&& forall|t1: int, t2: int| mutex_holds(s, t1) && mutex_holds(s, t2) ==> t1 == t2
    &&& (exists|t: int| mutex_at(s, t, MutexPc::Sleeping)) ==> (s.state == CONTENDED || exists|
        a: int,
    | mutex_active(s, a))
}

/// Law: a fresh mutex satisfies the invariant.
pub proof fn lemma_mutex_init(threads: Set<int>)
    ensures
        mutex_inv(mutex_init(threads)),
{
    let s = mutex_init(threads);
    assert(!exists|t: int| mutex_holds(s, t));
    assert(!exists|t: int| mutex_at(s, t, MutexPc::Sleeping));
}

/// A holder is the only holder, and the word is not `UNLOCKED`.
proof fn lemma_mutex_sole_holder(s: MutexSystem, t: int)
    requires
        mutex_inv(s),
        mutex_holds(s, t),
    ensures
        forall|u: int| mutex_holds(s, u) ==> u == t,
        s.state != UNLOCKED,
{
}

/// A move of thread `t` that leaves the holders as they were (`t` neither holds before
/// nor after) and either keeps the word or sets it to `CONTENDED` keeps the invariant,
/// provided `t` ends up active or the word is `CONTENDED` whenever someone sleeps, or `t`
/// was not what kept the sleepers covered.
proof fn lemma_mutex_move_keeps_holders(s: MutexSystem, t: int, state: u32, pc: MutexPc)
    requires
        mutex_inv(s),
        s.threads.dom().contains(t),
        s.threads[t] != MutexPc::Holding,
        pc != MutexPc::Holding,
        pc != MutexPc::Sleeping || state == CONTENDED,
        state == s.state || (state == CONTENDED && s.state != UNLOCKED),
        mutex_active(s, t) ==> (state == CONTENDED || pc == MutexPc::Contending
            || pc == MutexPc::AboutToWait || pc == MutexPc::Waking),
    ensures
        mutex_inv(mutex_step(s, t, state, pc)),
{
    let s2 = mutex_step(s, t, state, pc);
    assert forall|u: int| #[trigger] mutex_holds(s2, u) <==> mutex_holds(s, u) by {
        if u != t {
            assert(s2.threads[u] == s.threads[u]);
        }
    }
    if exists|u: int| mutex_holds(s, u) {
        let h = choose|u: int| mutex_holds(s, u);
        assert(mutex_holds(s2, h));
    }
    if exists|w: int| mutex_at(s2, w, MutexPc::Sleeping) {
        if state != CONTENDED {
            let w = choose|w: int| mutex_at(s2, w, MutexPc::Sleeping);
            if w == t {
                assert(false);
            }
            assert(mutex_at(s, w, MutexPc::Sleeping));
            let a = choose|a: int| mutex_active(s, a);
            if a == t {
                assert(mutex_active(s2, t));
            } else {
                assert(s2.threads[a] == s.threads[a]);
                assert(mutex_active(s2, a));
            }
        }
    }
}

/// Law: a successful compare-and-exchange from `UNLOCKED` (fast path, or the try after
/// spinning) makes its thread the one holder, and keeps the invariant.
pub proof fn lemma_mutex_cas_acquire(s: MutexSystem, t: int, on_failure: MutexPc)
    requires
        mutex_inv(s),
        mutex_at(s, t, MutexPc::Idle) || mutex_at(s, t, MutexPc::Spinning),
        s.state == UNLOCKED,
    ensures
        mutex_inv(mutex_cas(s, t, on_failure)),
        mutex_holds(mutex_cas(s, t, on_failure), t),
{
    let s2 = mutex_cas(s, t, on_failure);
    assert(!exists|u: int| mutex_holds(s, u));
    assert(mutex_holds(s2, t));
    assert forall|u: int| #[trigger] mutex_holds(s2, u) implies u == t by {
        if u != t {
            assert(mutex_holds(s, u));
        }
    }
    if exists|w: int| mutex_at(s2, w, MutexPc::Sleeping) {
        let w = choose|w: int| mutex_at(s2, w, MutexPc::Sleeping);
        assert(mutex_at(s, w, MutexPc::Sleeping));
        let a = choose|a: int| mutex_active(s, a);
        assert(a != t);
        assert(s2.threads[a] == s.threads[a]);
        assert(mutex_active(s2, a));
    }
}

/// Law: a contending thread's swap keeps the invariant; it takes the mutex exactly when
/// the word was `UNLOCKED`.
pub proof fn lemma_mutex_swap(s: MutexSystem, t: int)
    requires
        mutex_inv(s),
        mutex_at(s, t, MutexPc::Contending),
    ensures
        mutex_inv(mutex_swap(s, t)),
        mutex_holds(mutex_swap(s, t), t) <==> s.state == UNLOCKED,
{
    let s2 = mutex_swap(s, t);
    if s.state == UNLOCKED {
        assert(!exists|u: int| mutex_holds(s, u));
        assert forall|u: int| #[trigger] mutex_holds(s2, u) implies u == t by {
            if u != t {
                assert(mutex_holds(s, u));
            }
        }
        assert(mutex_holds(s2, t));
    } else {
        lemma_mutex_move_keeps_holders(s, t, CONTENDED, MutexPc::AboutToWait);
    }
}

/// The holder's release keeps the invariant and leaves nobody holding the mutex.
proof fn lemma_mutex_unlock(s: MutexSystem, t: int)
    requires
        mutex_inv(s),
        mutex_holds(s, t),
    ensures
        mutex_inv(mutex_unlock(s, t)),
        !exists|u: int| mutex_holds(mutex_unlock(s, t), u),
{
    let s2 = mutex_unlock(s, t);
    lemma_mutex_sole_holder(s, t);
    assert forall|u: int| !mutex_holds(s2, u) by {
        if u != t && mutex_holds(s2, u) {
            assert(mutex_holds(s, u));
        }
    }
    if exists|w: int| mutex_at(s2, w, MutexPc::Sleeping) {
        if s.state == CONTENDED {
            assert(mutex_active(s2, t));
        } else {
            let w = choose|w: int| mutex_at(s2, w, MutexPc::Sleeping);
            assert(mutex_at(s, w, MutexPc::Sleeping));
            let a = choose|a: int| mutex_active(s, a);
            assert(a != t);
            assert(s2.threads[a] == s.threads[a]);
            assert(mutex_active(s2, a));
        }
    }
}

/// Waking a sleeper keeps the invariant.
proof fn lemma_mutex_wake(s: MutexSystem, t: int, w: int)
    requires
        mutex_inv(s),
        mutex_at(s, t, MutexPc::Waking),
        mutex_at(s, w, MutexPc::Sleeping),
    ensures
        mutex_inv(mutex_wake(s, t, w)),
{
    let s2 = mutex_wake(s, t, w);
    assert forall|u: int| #[trigger] mutex_holds(s2, u) <==> mutex_holds(s, u) by {
        if u != t && u != w {
            assert(s2.threads[u] == s.threads[u]);
        }
    }
    if exists|u: int| mutex_holds(s, u) {
        let h = choose|u: int| mutex_holds(s, u);
        assert(mutex_holds(s2, h));
    }
    assert(mutex_active(s2, w));
}

/// Finding no sleeper, the waker goes idle; the invariant holds.
proof fn lemma_mutex_wake_none(s: MutexSystem, t: int)
    requires
        mutex_inv(s),
        mutex_at(s, t, MutexPc::Waking),
        !exists|w: int| mutex_at(s, w, MutexPc::Sleeping),
    ensures
        mutex_inv(mutex_wake_none(s, t)),
{
    let s2 = mutex_wake_none(s, t);
    assert forall|u: int| #[trigger] mutex_holds(s2, u) <==> mutex_holds(s, u) by {
        if u != t {
            assert(s2.threads[u] == s.threads[u]);
        }
    }
    if exists|u: int| mutex_holds(s, u) {
        let h = choose|u: int| mutex_holds(s, u);
        assert(mutex_holds(s2, h));
    }
    assert forall|u: int| !mutex_at(s2, u, MutexPc::Sleeping) by {
        if u != t {
            assert(s2.threads[u] == s.threads[u]);
            assert(!mutex_at(s, u, MutexPc::Sleeping));
        }
    }
}

/// Law: every move of any thread keeps the invariant, so it holds in every state the
/// protocol reaches: mutual exclusion, and no thread sleeps without someone left to wake
/// it.
pub proof fn lemma_mutex_next(s: MutexSystem, s2: MutexSystem)
    requires
        mutex_inv(s),
        mutex_next(s, s2),
    ensures
        mutex_inv(s2),
{
    let t = choose|t: int|
        #![trigger s.threads[t]]
        s.threads.dom().contains(t) && match s.threads[t] {
            MutexPc::Idle => s2 == mutex_cas(s, t, MutexPc::Spinning),
            MutexPc::Spinning => s2 == mutex_cas(s, t, MutexPc::Contending),
            MutexPc::Contending => s2 == mutex_swap(s, t),
            MutexPc::AboutToWait => s2 == mutex_wait(s, t),
            MutexPc::Sleeping => s2 == mutex_step(s, t, s.state, MutexPc::Contending),
            MutexPc::Holding => s2 == mutex_unlock(s, t),
            MutexPc::Waking => if exists|w: int| mutex_at(s, w, MutexPc::Sleeping) {
                exists|w: int| mutex_at(s, w, MutexPc::Sleeping) && s2 == mutex_wake(s, t, w)
            } else {
                s2 == mutex_wake_none(s, t)
            },
        };
    match s.threads[t] {
        MutexPc::Idle => {
            if s.state == UNLOCKED {
                lemma_mutex_cas_acquire(s, t, MutexPc::Spinning);
            } else {
                lemma_mutex_move_keeps_holders(s, t, s.state, MutexPc::Spinning);
            }
        },
        MutexPc::Spinning => {
            if s.state == UNLOCKED {
                lemma_mutex_cas_acquire(s, t, MutexPc::Contending);
            } else {
                lemma_mutex_move_keeps_holders(s, t, s.state, MutexPc::Contending);
            }
        },
        MutexPc::Contending => {
            lemma_mutex_swap(s, t);
        },
        MutexPc::AboutToWait => {
            if s.state == CONTENDED {
                lemma_mutex_move_keeps_holders(s, t, s.state, MutexPc::Sleeping);
            } else {
                lemma_mutex_move_keeps_holders(s, t, s.state, MutexPc::Contending);
            }
        },
        MutexPc::Sleeping => {
            lemma_mutex_move_keeps_holders(s, t, s.state, MutexPc::Contending);
        },
        MutexPc::Holding => {
            lemma_mutex_unlock(s, t);
        },
        MutexPc::Waking => {
            if exists|w: int| mutex_at(s, w, MutexPc::Sleeping) {
                let w = choose|w: int| mutex_at(s, w, MutexPc::Sleeping) && s2 == mutex_wake(s, t, w);
                lemma_mutex_wake(s, t, w);
            } else {
                lemma_mutex_wake_none(s, t);
            }
        },
    }
}

/// Law: in every reachable state at most one thread holds the mutex.
pub proof fn lemma_mutex_exclusive(s: MutexSystem, t1: int, t2: int)
    requires
        mutex_inv(s),
        mutex_holds(s, t1),
        mutex_holds(s, t2),
    ensures
        t1 == t2,
{
}

/// Law: the protocol's decisions, over every value read: the state word means unlocked at
/// 0, locked at 1 and contended at 2; a compare-and-exchange or a swap takes the mutex
/// exactly when it found 0; a release wakes a waiter exactly when it replaced 2; and a
/// contending thread keeps spinning only while it reads 1, at most 100 times.
pub proof fn lemma_mutex_decisions(prev: u32, observed: u32, spins: u32)
    ensures
        UNLOCKED == 0 && LOCKED == 1 && CONTENDED == 2 && SPIN_LIMIT == 100,
        cas_acquires(prev) <==> prev == 0,
        swap_acquires(prev) <==> prev == 0,
        unlock_wakes(prev) <==> prev == 2,
        keeps_spinning(observed, spins) <==> observed == 1 && spins < 100,
{
}

/// Law: the holder's release leaves the word `UNLOCKED`, and goes on to wake a sleeper
/// exactly when the word it replaced was `CONTENDED`.
pub proof fn lemma_mutex_unlock_step(s: MutexSystem, t: int)
    requires
        mutex_inv(s),
        mutex_holds(s, t),
    ensures
        mutex_unlock(s, t).state == 0,
        mutex_at(mutex_unlock(s, t), t, MutexPc::Waking) <==> s.state == 2,
        mutex_at(mutex_unlock(s, t), t, MutexPc::Idle) <==> s.state != 2,
{
}

} // verus!

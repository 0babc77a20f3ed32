//! A condition variable for `Mutex`: a notification counter that waiters sleep on, and
//! a count of waiters so that notifying costs nothing when nobody waits.
use std::sync::atomic::AtomicU32;
use std::sync::atomic::AtomicUsize;
use std::sync::atomic::Ordering;
use vstd::prelude::*;

use crate::atomic::futex_wait;
use crate::atomic::futex_wake_all;
use crate::atomic::futex_wake_one;
use crate::mutex::Mutex;
use crate::mutex::MutexGuard;
use crate::mutex::UNLOCKED;
use crate::atomic::fetch_add_u32;
use crate::atomic::fetch_add_usize;
use crate::atomic::fetch_sub_usize;
use crate::observed::Updated;
use crate::observed::Wake;

verus! {

/// Whether a notification, having read `waiters` from the waiter count, bumps the
/// counter and wakes: only when somebody waits.
pub open spec fn notify_needed(waiters: int) -> bool {
    waiters > 0
}

/// `notify_needed` of a waiter count as read from the atomic.
pub open spec fn notify_needed_at(waiters: usize) -> bool {
    notify_needed(waiters as int)
}

/// Decides from the waiter count whether to notify.
pub fn should_notify(waiters: usize) -> (notify: bool)
    ensures
        notify == notify_needed(waiters as int),
        notify <==> waiters > 0,
{
    waiters > 0
}

/// A condition variable.
pub struct Condvar {
    counter: AtomicU32,
    num_waiters: AtomicUsize,
}

impl Condvar {
    /// A condition variable with no waiter and no notification yet.
    pub fn new() -> (c: Self) {
        Condvar { counter: AtomicU32::new(0), num_waiters: AtomicUsize::new(0) }
    }

    /// Wakes one waiting thread, if any: reads the waiter count and, when it is nonzero,
    /// adds one to the counter, so that a thread about to sleep on the old value does not,
    /// and wakes one sleeper. Returns the count read and, if it notified, the addition and
    /// the wake it made.
    pub fn notify_one(&self) -> (r: (usize, Option<Notified>))
        ensures
            r.1 is Some <==> notify_needed_at(r.0),
            r.1 is Some <==> r.0 > 0,
            r.1 matches Some(n) ==> n.bump.operand@ == 1 && n.wake@ == Wake::One,
    {
        let waiters = self.num_waiters.load(Ordering::Relaxed);
        if should_notify(waiters) {
            let bump = fetch_add_u32(&self.counter, 1, Ordering::Relaxed);
            let wake = futex_wake_one(&self.counter);
            (waiters, Some(Notified { bump, wake }))
        } else {
            (waiters, None)
        }
    }

    /// Wakes every waiting thread: as `notify_one`, but the wake is of all sleepers.
    pub fn notify_all(&self) -> (r: (usize, Option<Notified>))
        ensures
            r.1 is Some <==> notify_needed_at(r.0),
            r.1 is Some <==> r.0 > 0,
            r.1 matches Some(n) ==> n.bump.operand@ == 1 && n.wake@ == Wake::All,
    {
        let waiters = self.num_waiters.load(Ordering::Relaxed);
        if should_notify(waiters) {
            let bump = fetch_add_u32(&self.counter, 1, Ordering::Relaxed);
            let wake = futex_wake_all(&self.counter);
            (waiters, Some(Notified { bump, wake }))
        } else {
            (waiters, None)
        }
    }

    /// Releases the mutex held by `guard` and sleeps until notified (or a spurious wake):
    /// adds one to the waiter count, reads the counter while still holding the mutex,
    /// unlocks, sleeps only while the counter still holds the value read, and subtracts one
    /// from the waiter count. Returns the mutex, which the caller locks again before it
    /// looks at the protected data, with what each step did.
    pub fn wait<'a>(&self, guard: MutexGuard<'a>) -> (r: (&'a Mutex, WaitSteps))
        ensures
            r.0 == guard.mutex_of(),
            r.1.registered.operand@ == 1,
            r.1.unlocked.operand@ == UNLOCKED,
            r.1.waited_on@ == r.1.counter_read,
            r.1.deregistered.operand@ == 1,
    {
        let registered = fetch_add_usize(&self.num_waiters, 1, Ordering::Relaxed);
        let counter_read = self.counter.load(Ordering::Relaxed);
        let mutex = guard.mutex();
        let (unlocked, _woke) = guard.unlock();
        let waited_on = futex_wait(&self.counter, counter_read);
        let deregistered = fetch_sub_usize(&self.num_waiters, 1, Ordering::Relaxed);
        (mutex, WaitSteps { registered, counter_read, unlocked, waited_on, deregistered })
    }
}

/// What a notification did once it found waiters: its addition to the counter, and which
/// futex wake it made.
pub struct Notified {
    pub bump: Updated<u32>,
    pub wake: Ghost<Wake>,
}

/// What each step of `Condvar::wait` did: the addition to the waiter count, the counter
/// value read, the swap that unlocked the mutex, the value the futex wait waited on, and
/// the subtraction from the waiter count.
pub struct WaitSteps {
    pub registered: Updated<usize>,
    pub counter_read: u32,
    pub unlocked: Updated<u32>,
    pub waited_on: Ghost<u32>,
    pub deregistered: Updated<usize>,
}

/// Where a thread stands in `wait`.
pub enum CvPc {
    /// Not waiting.
    Outside,
    /// Counted as a waiter, counter not read yet.
    Registered,
    /// Read the counter value `c` and released the mutex.
    Snapshot(nat),
    /// Asleep, having seen the counter at `c`.
    Sleeping(nat),
    /// Awake again, about to deregister.
    Woken,
}

/// The condition the callers wait for (set and checked while holding the mutex), the
/// counter, the waiter count, the set of threads inside `wait`, and every thread's
/// position.
pub struct CondvarSystem {
    pub cond: bool,
    pub counter: nat,
    pub num_waiters: nat,
    pub waiting: Set<int>,
    pub threads: Map<int, CvPc>,
}

/// How many values the 32-bit counter takes before it wraps.
pub open spec fn counter_modulus() -> nat {
    0x1_0000_0000
}

/// A fresh condition variable with the given threads, none waiting.
pub open spec fn cv_init(threads: Set<int>) -> CondvarSystem {
    CondvarSystem {
        cond: false,
        counter: 0,
        num_waiters: 0,
        waiting: Set::empty(),
        threads: Map::new(|t: int| threads.contains(t), |t: int| CvPc::Outside),
    }
}

/// Thread `t` sleeps.
pub open spec fn cv_sleeping(s: CondvarSystem, t: int) -> bool {
    s.threads.dom().contains(t) && s.threads[t] is Sleeping
}

/// A thread enters `wait`: it adds itself to the waiter count.
pub open spec fn cv_register(s: CondvarSystem, t: int) -> CondvarSystem {
    CondvarSystem {
        num_waiters: s.num_waiters + 1,
        waiting: s.waiting.insert(t),
        threads: s.threads.insert(t, CvPc::Registered),
        ..s
    }
}

/// It reads the counter (and then releases the mutex).
pub open spec fn cv_snapshot(s: CondvarSystem, t: int) -> CondvarSystem {
    CondvarSystem { threads: s.threads.insert(t, CvPc::Snapshot(s.counter)), ..s }
}

/// The futex wait: it sleeps only if the counter still holds the value it read.
pub open spec fn cv_wait(s: CondvarSystem, t: int, c: nat) -> CondvarSystem {
    CondvarSystem {
        threads: s.threads.insert(t, if s.counter == c { CvPc::Sleeping(c) } else { CvPc::Woken }),
        ..s
    }
}

/// It wakes up (on a notification, or spuriously).
pub open spec fn cv_wake(s: CondvarSystem, t: int) -> CondvarSystem {
    CondvarSystem { threads: s.threads.insert(t, CvPc::Woken), ..s }
}

/// It leaves `wait`, removing itself from the waiter count.
pub open spec fn cv_deregister(s: CondvarSystem, t: int) -> CondvarSystem {
    CondvarSystem {
        num_waiters: (s.num_waiters - 1) as nat,
        waiting: s.waiting.remove(t),
        threads: s.threads.insert(t, CvPc::Outside),
        ..s
    }
}

/// The counter after a notification bumped it.
pub open spec fn cv_bumped(s: CondvarSystem) -> nat {
    (s.counter + 1) % counter_modulus()
}

/// The first step of a notification: it reads the waiter count. The value read is what
/// the notifier decides on in its second step, whatever happened in between.
pub open spec fn cv_notify_read(s: CondvarSystem) -> nat {
    s.num_waiters
}

/// The second step of `notify_one`, having read `observed` from the waiter count, with `w`
/// the sleeper the kernel picks when there is one: when the count read was nonzero, the
/// counter moves on and `w` wakes.
pub open spec fn cv_notify_one(s: CondvarSystem, observed: nat, w: int) -> CondvarSystem {
    if notify_needed(observed as int) {
        CondvarSystem {
            counter: cv_bumped(s),
            threads: if cv_sleeping(s, w) { s.threads.insert(w, CvPc::Woken) } else { s.threads },
            ..s
        }
    } else {
        s
    }
}

/// The second step of `notify_all`, having read `observed` from the waiter count: when it
/// was nonzero, the counter moves on and every sleeper wakes.
pub open spec fn cv_notify_all(s: CondvarSystem, observed: nat) -> CondvarSystem {
    if notify_needed(observed as int) {
        CondvarSystem {
            counter: cv_bumped(s),
            threads: Map::new(
                |t: int| s.threads.dom().contains(t),
                |t: int| if s.threads[t] is Sleeping { CvPc::Woken } else { s.threads[t] },
            ),
            ..s
        }
    } else {
        s
    }
}

/// What holds in every reachable state: the waiter count is the number of threads
/// inside `wait`, which are exactly the threads not outside it, and the counter stays
/// within 32 bits.
pub open spec fn cv_inv(s: CondvarSystem) -> bool {
    &&& s.waiting.finite()
    &&& s.num_waiters == s.waiting.len()
    &&& s.counter < counter_modulus()
    &&& forall|t: int| #[trigger] s.waiting.contains(t) ==> s.threads.dom().contains(t)
    &&& forall|t: int|
        s.threads.dom().contains(t) ==> (#[trigger] s.waiting.contains(t) <==> !(
        s.threads[t] is Outside))
}

/// Law: a fresh condition variable satisfies the invariant.
pub proof fn lemma_cv_init(threads: Set<int>)
    ensures
        cv_inv(cv_init(threads)),
{
}

/// Law: a thread inside `wait` is counted, so a notification that reads the waiter count
/// while it is there reads a nonzero count, and will bump the counter.
pub proof fn lemma_cv_counted(s: CondvarSystem, t: int)
    requires
        cv_inv(s),
        s.threads.dom().contains(t),
        !(s.threads[t] is Outside),
    ensures
        cv_notify_read(s) > 0,
        notify_needed(cv_notify_read(s) as int),
{
    assert(s.waiting.contains(t));
    vstd::set_lib::lemma_set_empty_equivalency_len(s.waiting);
}

/// While holding the mutex, a thread checks the condition and calls `wait` only if it is
/// not set yet; `wait` registers it before it releases the mutex.
pub open spec fn cv_enter(s: CondvarSystem, t: int) -> CondvarSystem {
    if s.cond {
        s
    } else {
        cv_register(s, t)
    }
}

/// While holding the mutex, a notifier sets the condition; after releasing the mutex it
/// notifies (`cv_notify_read`, then `cv_notify_one` or `cv_notify_all`).
pub open spec fn cv_set(s: CondvarSystem) -> CondvarSystem {
    CondvarSystem { cond: true, ..s }
}

/// Law: checking the condition and entering `wait`, and setting the condition, keep the
/// invariant.
pub proof fn lemma_cv_enter_set(s: CondvarSystem, t: int)
    requires
        cv_inv(s),
        s.threads.dom().contains(t),
        s.threads[t] is Outside,
    ensures
        cv_inv(cv_enter(s, t)),
        cv_inv(cv_set(s)),
{
    if !s.cond {
        lemma_cv_register(s, t);
    }
}

/// Law: no wake-up is lost across the mutex hand-off. Once a notifier has set the
/// condition, no thread enters `wait` any more (it finds the condition set under the
/// mutex), so every thread inside `wait` when the notifier then reads the waiter count
/// registered before, and the read is nonzero (`lemma_cv_counted`): the notification bumps
/// the counter and wakes.
pub proof fn lemma_cv_handoff(s: CondvarSystem, t: int, u: int)
    requires
        cv_inv(s),
        s.cond,
        s.threads.dom().contains(t),
        s.threads[t] is Outside,
        s.threads.dom().contains(u),
        !(s.threads[u] is Outside),
    ensures
        cv_enter(s, t) == s,
        notify_needed(cv_notify_read(s) as int),
{
    lemma_cv_counted(s, u);
}

/// Law: a thread entering `wait` keeps the invariant.
pub proof fn lemma_cv_register(s: CondvarSystem, t: int)
    requires
        cv_inv(s),
        s.threads.dom().contains(t),
        s.threads[t] is Outside,
    ensures
        cv_inv(cv_register(s, t)),
{
    assert(!s.waiting.contains(t));
}

/// Law: a thread leaving `wait` keeps the invariant.
pub proof fn lemma_cv_deregister(s: CondvarSystem, t: int)
    requires
        cv_inv(s),
        s.threads.dom().contains(t),
        s.threads[t] is Woken,
    ensures
        cv_inv(cv_deregister(s, t)),
{
    assert(s.waiting.contains(t));
}

/// Law: reading the counter, the futex wait and a spurious wake keep the invariant.
pub proof fn lemma_cv_inner_steps(s: CondvarSystem, t: int, c: nat)
    requires
        cv_inv(s),
        s.threads.dom().contains(t),
    ensures
        s.threads[t] is Registered ==> cv_inv(cv_snapshot(s, t)),
        s.threads[t] == CvPc::Snapshot(c) ==> cv_inv(cv_wait(s, t, c)),
        s.threads[t] is Sleeping ==> cv_inv(cv_wake(s, t)),
{
}

/// Law: the second step of both notifications keeps the invariant, whatever count the
/// first step read.
pub proof fn lemma_cv_notify(s: CondvarSystem, observed: nat, w: int)
    requires
        cv_inv(s),
    ensures
        cv_inv(cv_notify_one(s, observed, w)),
        cv_inv(cv_notify_all(s, observed)),
{
    let s2 = cv_notify_all(s, observed);
    if notify_needed(observed as int) {
        assert forall|t: int| s2.threads.dom().contains(t) implies (#[trigger] s2.waiting.contains(t)
            <==> !(s2.threads[t] is Outside)) by {
            assert(s.waiting.contains(t) <==> !(s.threads[t] is Outside));
        }
    }
}

/// Law: no notification is lost. A notification whose read of the waiter count came while
/// a thread was inside `wait` read a nonzero count (`lemma_cv_counted`); its second step
/// then moves the counter away from the value the thread read, if the counter still holds
/// it, and the thread's futex wait returns at once instead of sleeping.
pub proof fn lemma_cv_no_lost_notify(s: CondvarSystem, t: int, c: nat, observed: nat, w: int)
    requires
        cv_inv(s),
        s.threads.dom().contains(t),
        s.threads[t] == CvPc::Snapshot(c),
        s.counter == c,
        observed > 0,
    ensures
        cv_wait(cv_notify_one(s, observed, w), t, c).threads[t] is Woken,
        cv_wait(cv_notify_all(s, observed), t, c).threads[t] is Woken,
{
}

/// Law: a notification that read a nonzero waiter count wakes: `notify_one` wakes the
/// sleeper it picks, and `notify_all` leaves no thread asleep.
pub proof fn lemma_cv_notify_wakes(s: CondvarSystem, observed: nat, w: int)
    requires
        cv_inv(s),
        observed > 0,
    ensures
        cv_sleeping(s, w) ==> cv_notify_one(s, observed, w).threads[w] is Woken,
        forall|t: int| !cv_sleeping(cv_notify_all(s, observed), t),
{
}

/// A notification's second step, with the wake it makes: of the sleeper `w` the kernel
/// picks, or of all sleepers.
pub open spec fn cv_notify(s: CondvarSystem, observed: nat, kind: Wake, w: int) -> CondvarSystem {
    match kind {
        Wake::One => cv_notify_one(s, observed, w),
        Wake::All => cv_notify_all(s, observed),
    }
}

/// Law: what each wake does for the sleepers, once the waiter count read was nonzero: a
/// wake of all leaves no thread asleep, and a wake of one wakes the sleeper it picks and
/// leaves every other thread where it was. Both move the counter on.
pub proof fn lemma_cv_notify_kind(s: CondvarSystem, observed: nat, w: int)
    requires
        cv_inv(s),
        observed > 0,
    ensures
        forall|t: int| !cv_sleeping(cv_notify(s, observed, Wake::All, w), t),
        cv_sleeping(s, w) ==> cv_notify(s, observed, Wake::One, w).threads[w] is Woken,
        forall|t: int|
            t != w ==> cv_notify(s, observed, Wake::One, w).threads[t] == s.threads[t],
        cv_notify(s, observed, Wake::All, w).counter == (s.counter + 1) % counter_modulus(),
        cv_notify(s, observed, Wake::One, w).counter == (s.counter + 1) % counter_modulus(),
{
}

/// Law: a notification acts exactly when the waiter count it read was nonzero.
pub proof fn lemma_notify_needed_iff_waiters(waiters: int, read: usize)
    ensures
        notify_needed(waiters) <==> waiters > 0,
        notify_needed_at(read) <==> read > 0,
{
}

} // verus!

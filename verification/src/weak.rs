//! A reference-counted pointer with weak handles. Two counts share one allocation: the
//! data count, of the `Arc` handles, and the allocation count, of the `Weak` handles plus
//! one standing for all the `Arc` handles together. `usize::MAX` in the allocation count
//! marks it as locked by `get_mut`.
use std::sync::atomic::AtomicUsize;
use std::sync::atomic::Ordering;
use vstd::prelude::*;

use crate::arc::clone_aborts;
use crate::arc::clone_aborts_at;
use crate::arc::release_frees_at;
use crate::arc::must_abort;
use crate::arc::release_frees;
use crate::arc::was_last;
use crate::atomic::acquire_fence;
use crate::atomic::arc_get_mut;
use crate::atomic::compare_exchange_usize;
use crate::atomic::compare_exchange_weak_usize;
use crate::atomic::fetch_add_usize;
use crate::atomic::fetch_sub_usize;
use crate::atomic::store_usize;
use crate::arc::count_unique_at;
use crate::arc::is_unique;
use crate::observed::Exchanged;
use crate::observed::Updated;

verus! {

/// Whether an upgrade that read the data count `n` finds the data gone.
pub open spec fn upgrade_dead(n: usize) -> bool {
    n == 0
}

/// Whether a downgrade that read the allocation count `n` finds it locked by `get_mut`.
pub open spec fn downgrade_locked(n: usize) -> bool {
    n == usize::MAX
}

/// Decides from the data count an upgrade read whether the data is gone.
pub fn is_dead(n: usize) -> (dead: bool)
    ensures
        dead == upgrade_dead(n),
        dead <==> n == 0,
{
    n == 0
}

/// Decides from the allocation count a downgrade read whether `get_mut` holds it.
pub fn is_locked(n: usize) -> (locked: bool)
    ensures
        locked == downgrade_locked(n),
        locked <==> n == usize::MAX,
{
    n == usize::MAX
}

/// What releasing an `Arc` that replaced data count `old` does, given whether the
/// allocation share it then gave up was the last: other `Arc` handles remain, or the data
/// is out of reach, or everything is freed.
pub open spec fn release_outcome_spec(old: usize, share_last: bool) -> Released {
    if !release_frees_at(old) {
        Released::Kept
    } else if share_last {
        Released::Freed
    } else {
        Released::DataGone
    }
}

/// Decides the outcome of an `Arc` release from the data count it replaced and whether
/// the allocation share it then gave up was the last.
pub fn release_outcome(old: usize, share_last: bool) -> (r: Released)
    ensures
        r == release_outcome_spec(old, share_last),
        old != 1 ==> r is Kept,
        old == 1 && share_last ==> r is Freed,
        old == 1 && !share_last ==> r is DataGone,
{
    if !was_last(old) {
        Released::Kept
    } else if share_last {
        Released::Freed
    } else {
        Released::DataGone
    }
}

struct ArcData<T> {
    data_ref_count: AtomicUsize,
    alloc_ref_count: AtomicUsize,
    data: T,
}

/// A strong handle: keeps the data alive.
pub struct Arc<T> {
    ptr: std::sync::Arc<ArcData<T>>,
}

/// A weak handle: keeps the allocation, not the data; can be upgraded while an `Arc`
/// still exists.
pub struct Weak<T> {
    ptr: std::sync::Arc<ArcData<T>>,
}

/// Outcome of one round of `upgrade`.
pub enum Upgrade<T> {
    /// The data count was zero: the data is gone.
    Dead,
    /// The data count was raised; here is the new handle.
    Upgraded(Arc<T>),
    /// Another thread changed the count first; retry from this value.
    Retry(usize),
}

/// Outcome of one round of `downgrade`.
pub enum Downgrade<T> {
    /// `get_mut` holds the allocation count; spin, read it again and retry.
    Locked,
    /// The allocation count was raised; here is the new handle.
    Downgraded(Weak<T>),
    /// Another thread changed the count first; retry from this value.
    Retry(usize),
}

/// What releasing an `Arc` did.
pub enum Released {
    /// Other `Arc` handles remain.
    Kept,
    /// It was the last `Arc`: no upgrade can reach the data any more; `Weak` handles keep
    /// the allocation, and the data's destructor runs when the allocation goes.
    DataGone,
    /// It was the last handle of any kind: the allocation is freed too.
    Freed,
}

impl<T> Arc<T> {
    /// The value shared by this handle.
    pub closed spec fn value(&self) -> T {
        self.ptr.data
    }

    /// Puts `data` in a fresh allocation: one `Arc`, no `Weak`.
    pub fn new(data: T) -> (a: Self)
        ensures
            a.value() == data,
    {
        Arc {
            ptr: std::sync::Arc::new(
                ArcData {
                    alloc_ref_count: AtomicUsize::new(1),
                    data_ref_count: AtomicUsize::new(1),
                    data,
                },
            ),
        }
    }

    /// The shared value.
    pub fn get(&self) -> (r: &T)
        ensures
            *r == self.value(),
    {
        &self.ptr.data
    }

    /// The allocation count, as a downgrade reads it before its first round.
    pub fn alloc_count(&self) -> usize {
        self.ptr.alloc_ref_count.load(Ordering::Relaxed)
    }

    /// Gives the handle up: subtracts one from the data count with release ordering; the
    /// last `Arc` then gives up the allocation share all `Arc` handles held together, as
    /// releasing a `Weak` does. Returns the outcome with the subtraction from the data
    /// count and, when one was made, the release of the allocation share (whether it was the
    /// last, and its subtraction); the outcome is `release_outcome` of the two.
    pub fn release(self) -> (r: (Released, Updated<usize>, Option<(bool, Updated<usize>)>))
        ensures
            r.1.operand@ == 1,
            r.2 is Some <==> release_frees_at(r.1.prev),
            r.2 matches Some(share) ==> share.1.operand@ == 1 && share.0 == release_frees_at(
                share.1.prev,
            ),
            r.0 == release_outcome_spec(r.1.prev, r.2 matches Some(share) && share.0),
            r.2 is Some <==> r.1.prev == 1,
            r.1.prev != 1 ==> r.0 is Kept,
            r.2 matches Some(share) ==> (share.0 <==> share.1.prev == 1),
    {
        let x = fetch_sub_usize(&self.ptr.data_ref_count, 1, Ordering::Release);
        if was_last(x.prev) {
            acquire_fence();
            let w = Weak { ptr: self.ptr };
            let share = w.release();
            (release_outcome(x.prev, share.0), x, Some(share))
        } else {
            (release_outcome(x.prev, false), x, None)
        }
    }
}

impl<T> Weak<T> {
    /// The value in the allocation this handle points to.
    pub closed spec fn value(&self) -> T {
        self.ptr.data
    }

    /// The data count, as an upgrade reads it before its first round.
    pub fn data_count(&self) -> usize {
        self.ptr.data_ref_count.load(Ordering::Relaxed)
    }

    /// One round of `upgrade`, with `n` the data count last read: gives up when it is
    /// zero, and otherwise tries to move it from `n` to `n + 1`, which makes a new `Arc`.
    /// The caller checks `n < usize::MAX` first. Returns the outcome with the exchange
    /// (`None` when none was tried): `Upgraded` exactly when it succeeded, which means the
    /// count held `n`; `Retry(e)` with the value `e` it found otherwise.
    pub fn upgrade_from(&self, n: usize) -> (r: (Upgrade<T>, Option<Exchanged<usize>>))
        requires
            n < usize::MAX,
        ensures
            r.0 is Dead <==> upgrade_dead(n),
            r.1 is None <==> upgrade_dead(n),
            r.0 is Dead <==> n == 0,
            r.1 is Some <==> n != 0,
            r.1 matches Some(x) ==> x.new@ == n + 1,
            r.1 matches Some(x) ==> (x.result matches Ok(v) ==> v == n),
            r.1 matches Some(x) ==> (x.result is Ok <==> r.0 is Upgraded),
            r.1 matches Some(x) ==> (x.result matches Err(e) ==> r.0 == Upgrade::<T>::Retry(e)),
            r.0 matches Upgrade::Upgraded(a) ==> a.value() == self.value(),
    {
        if is_dead(n) {
            return (Upgrade::Dead, None);
        }
        let x = compare_exchange_weak_usize(
            &self.ptr.data_ref_count,
            n,
            n + 1,
            Ordering::Relaxed,
            Ordering::Relaxed,
        );
        match x.result {
            Ok(_) => (Upgrade::Upgraded(Arc { ptr: self.ptr.clone() }), Some(x)),
            Err(e) => (Upgrade::Retry(e), Some(x)),
        }
    }

    /// One round of `downgrade`, with `n` the allocation count last read from `arc`: waits
    /// while `get_mut` holds it, and otherwise tries to move it from `n` to `n + 1`, which
    /// makes a new `Weak`. The caller checks `n < usize::MAX - 1` first when `n` is not
    /// `usize::MAX`. Returns the outcome with the exchange (`None` when none was tried):
    /// `Downgraded` exactly when it succeeded, which means the count held `n`, not the
    /// `get_mut` lock; `Retry(e)` with the value `e` it found otherwise.
    pub fn downgrade_from(arc: &Arc<T>, n: usize) -> (r: (Downgrade<T>, Option<Exchanged<usize>>))
        requires
            n == usize::MAX || n < usize::MAX - 1,
        ensures
            r.0 is Locked <==> downgrade_locked(n),
            r.1 is None <==> downgrade_locked(n),
            r.0 is Locked <==> n == usize::MAX,
            r.1 is Some <==> n != usize::MAX,
            r.1 matches Some(x) ==> x.new@ == n + 1,
            r.1 matches Some(x) ==> (x.result matches Ok(v) ==> v == n && !downgrade_locked(v)),
            r.1 matches Some(x) ==> (x.result is Ok <==> r.0 is Downgraded),
            r.1 matches Some(x) ==> (x.result matches Err(e) ==> r.0 == Downgrade::<T>::Retry(e)),
            r.0 matches Downgrade::Downgraded(w) ==> w.value() == arc.value(),
    {
        if is_locked(n) {
            return (Downgrade::Locked, None);
        }
        let x = compare_exchange_weak_usize(
            &arc.ptr.alloc_ref_count,
            n,
            n + 1,
            Ordering::Acquire,
            Ordering::Relaxed,
        );
        match x.result {
            Ok(_) => (Downgrade::Downgraded(Weak { ptr: arc.ptr.clone() }), Some(x)),
            Err(e) => (Downgrade::Retry(e), Some(x)),
        }
    }

    /// Mutable access to the data when `arc` is the only pointer of any kind: locks the
    /// allocation count (from one to `usize::MAX`) so that no `Weak` can appear, checks
    /// that the data count is one, and unlocks. Since the allocation is a `std::sync::Arc`,
    /// std's own count must be one as well: in the short window where another handle's
    /// release has lowered a count but not yet dropped its share of the allocation, the
    /// result is `None`.
    pub fn get_mut(arc: &mut Arc<T>) -> (r: (Option<&mut T>, GetMutSteps))
        ensures
            r.1.lock.new@ == usize::MAX,
            r.1.lock.result matches Ok(v) ==> v == 1,
            r.1.lock.result is Err ==> r.1.data_count is None && r.1.restored@ is None,
            r.1.lock.result is Ok ==> r.1.data_count is Some && r.1.restored@ == Some(1usize),
            r.0 is Some ==> r.1.lock.result is Ok && (r.1.data_count matches Some(c)
                && count_unique_at(c)),
            r.0 is Some ==> r.1.data_count == Some(1usize),
            r.0 matches Some(v) ==> *v == old(arc).value() && final(arc).value() == *final(v),
            r.0 is None ==> final(arc).value() == old(arc).value(),
    {
        let lock = compare_exchange_usize(
            &arc.ptr.alloc_ref_count,
            1,
            usize::MAX,
            Ordering::Acquire,
            Ordering::Relaxed,
        );
        if lock.result.is_err() {
            return (None, GetMutSteps { lock, data_count: None, restored: Ghost(None) });
        }
        let count = arc.ptr.data_ref_count.load(Ordering::Relaxed);
        let unique = is_unique(count);
        let stored = store_usize(&arc.ptr.alloc_ref_count, 1, Ordering::Release);
        let steps = GetMutSteps { lock, data_count: Some(count), restored: Ghost(Some(stored@)) };
        if !unique {
            return (None, steps);
        }
        acquire_fence();
        match arc_get_mut(&mut arc.ptr) {
            Some(d) => (Some(&mut d.data), steps),
            None => (None, steps),
        }
    }

    /// Another weak handle: adds one to the allocation count, and returns it with the
    /// addition; `None` exactly when the count it replaced was past `usize::MAX / 2`, where
    /// the process must abort.
    pub fn try_clone(&self) -> (r: (Option<Self>, Updated<usize>))
        ensures
            r.1.operand@ == 1,
            r.0 is None <==> clone_aborts_at(r.1.prev),
            r.0 is None <==> r.1.prev > usize::MAX / 2,
            r.0 matches Some(w) ==> w.value() == self.value(),
    {
        let x = fetch_add_usize(&self.ptr.alloc_ref_count, 1, Ordering::Relaxed);
        if must_abort(x.prev) {
            (None, x)
        } else {
            (Some(Weak { ptr: self.ptr.clone() }), x)
        }
    }

    /// Gives the handle up: subtracts one from the allocation count with release ordering,
    /// and returns whether it was the last share, whose release frees the allocation, with
    /// the subtraction: it was the last exactly when the count it replaced was one.
    pub fn release(self) -> (r: (bool, Updated<usize>))
        ensures
            r.1.operand@ == 1,
            r.0 == release_frees_at(r.1.prev),
            r.0 <==> r.1.prev == 1,
    {
        let x = fetch_sub_usize(&self.ptr.alloc_ref_count, 1, Ordering::Release);
        let last = was_last(x.prev);
        if last {
            acquire_fence();
        }
        (last, x)
    }
}

/// What `Weak::get_mut` did: the exchange that tried to lock the allocation count (from
/// one to `usize::MAX`); when it succeeded, the data count read and, as a ghost, the value
/// stored back to unlock it.
pub struct GetMutSteps {
    pub lock: Exchanged<usize>,
    pub data_count: Option<usize>,
    pub restored: Ghost<Option<usize>>,
}

/// The handles and the two counts. `releasing` is the moment between the last `Arc`
/// release releasing the data and its giving up the allocation share; an allocation count
/// of `usize::MAX` means `get_mut` holds it.
pub struct WeakSystem {
    pub strong: nat,
    pub weak: nat,
    pub data_count: int,
    pub alloc_count: int,
    pub releasing: bool,
    pub data_gone: bool,
    pub freed: bool,
    pub aborted: bool,
}

/// `get_mut` holds the allocation count.
pub open spec fn weak_locked(s: WeakSystem) -> bool {
    s.alloc_count == usize::MAX
}

/// Right after `new`: one `Arc`, no `Weak`.
pub open spec fn weak_init() -> WeakSystem {
    WeakSystem {
        strong: 1,
        weak: 0,
        data_count: 1,
        alloc_count: 1,
        releasing: false,
        data_gone: false,
        freed: false,
        aborted: false,
    }
}

/// A successful upgrade round (the data count held what the thread read): it gives up
/// when the count is zero, and otherwise makes a new `Arc`.
pub open spec fn weak_upgrade(s: WeakSystem) -> WeakSystem {
    if upgrade_dead(s.data_count as usize) {
        s
    } else {
        WeakSystem { data_count: s.data_count + 1, strong: s.strong + 1, ..s }
    }
}

/// A successful downgrade round: it waits while `get_mut` holds the count, and otherwise
/// makes a new `Weak`.
pub open spec fn weak_downgrade(s: WeakSystem) -> WeakSystem {
    if downgrade_locked(s.alloc_count as usize) {
        s
    } else {
        WeakSystem { alloc_count: s.alloc_count + 1, weak: s.weak + 1, ..s }
    }
}

/// A `Weak` is cloned; past the threshold the process aborts.
pub open spec fn weak_clone(s: WeakSystem) -> WeakSystem {
    if clone_aborts(s.alloc_count) {
        WeakSystem { alloc_count: s.alloc_count + 1, aborted: true, ..s }
    } else {
        WeakSystem { alloc_count: s.alloc_count + 1, weak: s.weak + 1, ..s }
    }
}

/// A `Weak` is released; the last share frees the allocation.
pub open spec fn weak_release(s: WeakSystem) -> WeakSystem {
    WeakSystem {
        alloc_count: s.alloc_count - 1,
        weak: (s.weak - 1) as nat,
        freed: release_frees(s.alloc_count),
        ..s
    }
}

/// An `Arc` is released; the last one puts the data out of reach and goes on to give up
/// the shared allocation share.
pub open spec fn weak_arc_release(s: WeakSystem) -> WeakSystem {
    if release_frees(s.data_count) {
        WeakSystem {
            data_count: s.data_count - 1,
            strong: (s.strong - 1) as nat,
            data_gone: true,
            releasing: true,
            ..s
        }
    } else {
        WeakSystem { data_count: s.data_count - 1, strong: (s.strong - 1) as nat, ..s }
    }
}

/// The last `Arc` release gives up the allocation share.
pub open spec fn weak_share_release(s: WeakSystem) -> WeakSystem {
    WeakSystem {
        alloc_count: s.alloc_count - 1,
        releasing: false,
        freed: release_frees(s.alloc_count),
        ..s
    }
}

/// `get_mut` tries to lock the allocation count, moving it from one to `usize::MAX`.
pub open spec fn weak_lock(s: WeakSystem) -> WeakSystem {
    if s.alloc_count == 1 {
        WeakSystem { alloc_count: usize::MAX as int, ..s }
    } else {
        s
    }
}

/// `get_mut` unlocks the allocation count, storing one.
pub open spec fn weak_unlock(s: WeakSystem) -> WeakSystem {
    WeakSystem { alloc_count: 1, ..s }
}

/// A move of the system while it runs. Each needs the handle it acts through; a thread
/// inside `get_mut` holds its `Arc` by `&mut`, so while the count is locked another `Arc`
/// must exist for one to be released. The rounds carry the overflow checks of the code.
pub open spec fn weak_next(s: WeakSystem, s2: WeakSystem) -> bool {
    &&& !s.aborted
    &&& !s.freed
    &&& {
        ||| (s.weak >= 1 && s.data_count < usize::MAX && s2 == weak_upgrade(s))
        ||| (s.strong >= 1 && (weak_locked(s) || s.alloc_count < usize::MAX - 1) && s2
            == weak_downgrade(s))
        ||| (s.weak >= 1 && s2 == weak_clone(s))
        ||| (s.weak >= 1 && s2 == weak_release(s))
        ||| (s.strong >= 1 && (!weak_locked(s) || s.strong >= 2) && s2 == weak_arc_release(s))
        ||| (s.releasing && s2 == weak_share_release(s))
        ||| (s.strong >= 1 && !weak_locked(s) && s2 == weak_lock(s))
        ||| (weak_locked(s) && s2 == weak_unlock(s))
    }
}

/// What holds in every reachable state: the data count is the number of `Arc` handles;
/// the data is out of reach exactly when none is left; unlocked, the allocation count is the
/// number of `Weak` handles plus one while any `Arc` (or the last one's release) remains;
/// locked, there is no `Weak` and the locking `Arc` exists; and a freed allocation has no
/// handle left.
pub open spec fn weak_inv(s: WeakSystem) -> bool {
    &&& s.data_count == s.strong
    &&& s.data_gone <==> s.strong == 0
    &&& s.releasing ==> s.strong == 0
    &&& weak_locked(s) ==> s.weak == 0 && s.strong >= 1 && !s.releasing
    &&& !weak_locked(s) ==> s.alloc_count == s.weak + (if s.strong > 0 || s.releasing {
        1int
    } else {
        0int
    }) && s.alloc_count < usize::MAX
    &&& s.freed ==> s.strong == 0 && s.weak == 0 && !s.releasing
}

/// Law: a fresh `Arc` satisfies the invariant.
pub proof fn lemma_weak_init()
    ensures
        weak_inv(weak_init()),
{
}

/// Law: every move keeps the invariant.
pub proof fn lemma_weak_next(s: WeakSystem, s2: WeakSystem)
    requires
        weak_inv(s),
        weak_next(s, s2),
        !s2.aborted,
    ensures
        weak_inv(s2),
{
}

/// Law: once the data is out of reach, no upgrade brings it back: the round finds a data count
/// of zero and changes nothing.
pub proof fn lemma_weak_no_resurrection(s: WeakSystem)
    requires
        weak_inv(s),
        s.data_gone,
    ensures
        weak_upgrade(s) == s,
{
}

/// Law: the data goes out of reach by the release of the last `Arc`, and only by it.
pub proof fn lemma_weak_last_arc(s: WeakSystem)
    requires
        weak_inv(s),
        s.strong >= 1,
    ensures
        weak_arc_release(s).data_gone <==> s.strong == 1,
{
}

/// Law: when `get_mut` holds the lock and reads a data count of one, the `Arc` it was
/// called on is the only handle of either kind, and no new one can appear before it
/// unlocks (upgrades need a `Weak`, downgrades wait for the lock).
pub proof fn lemma_weak_get_mut_unique(s: WeakSystem)
    requires
        weak_inv(s),
        weak_locked(s),
        crate::arc::count_unique(s.data_count),
    ensures
        s.strong == 1,
        s.weak == 0,
        weak_downgrade(s) == s,
{
}

/// Law: the allocation, and with it the data, is freed only once no handle of either kind
/// is left.
pub proof fn lemma_weak_freed_empty(s: WeakSystem)
    requires
        weak_inv(s),
        s.freed,
    ensures
        s.strong == 0,
        s.weak == 0,
        s.data_gone,
{
}

/// Law: an upgrade round gives up exactly when the data count it read is zero, and
/// otherwise tries to move the count up by one.
pub proof fn lemma_upgrade_round_dead_iff_zero(n: usize)
    ensures
        upgrade_dead(n) <==> n == 0,
{
}

/// Law: while any `Arc` is alive (and the count is below the bound the round checks), a
/// successful upgrade adds one `Arc`: the data count and the number of `Arc` handles both
/// grow by one, and the data stays reachable.
pub proof fn lemma_weak_upgrade_live(s: WeakSystem)
    requires
        weak_inv(s),
        s.strong >= 1,
        s.data_count < usize::MAX,
    ensures
        weak_upgrade(s).strong == s.strong + 1,
        weak_upgrade(s).data_count == s.data_count + 1,
        !weak_upgrade(s).data_gone,
        weak_upgrade(s).weak == s.weak,
{
}

/// Law: a downgrade round waits exactly when the allocation count it read is the
/// `get_mut` lock, `usize::MAX`.
pub proof fn lemma_downgrade_round_locked_iff_max(n: usize)
    ensures
        downgrade_locked(n) <==> n == usize::MAX,
{
}

/// Law: unless `get_mut` holds the allocation count, a successful downgrade adds one
/// `Weak`: the allocation count and the number of `Weak` handles both grow by one, and the
/// `Arc` handles are untouched.
pub proof fn lemma_weak_downgrade_unlocked(s: WeakSystem)
    requires
        weak_inv(s),
        !weak_locked(s),
    ensures
        weak_downgrade(s).weak == s.weak + 1,
        weak_downgrade(s).alloc_count == s.alloc_count + 1,
        weak_downgrade(s).strong == s.strong,
{
}

/// Law: releasing an `Arc` keeps the data reachable unless the data count it replaced was
/// one; when it was one, the data goes out of reach, and the allocation is freed too
/// exactly when the allocation share given up was the last.
pub proof fn lemma_release_outcome(old: usize, share_last: bool)
    ensures
        old != 1 ==> release_outcome_spec(old, share_last) is Kept,
        old == 1 && share_last ==> release_outcome_spec(old, share_last) is Freed,
        old == 1 && !share_last ==> release_outcome_spec(old, share_last) is DataGone,
{
}

/// Law: the outcome the code reports for an `Arc` release agrees with the model: it says
/// the data is out of reach (`DataGone` or `Freed`) exactly when the model's release step
/// removes the last `Arc`, which happens exactly when there was one `Arc` left.
pub proof fn lemma_release_outcome_matches_model(s: WeakSystem, share_last: bool)
    requires
        weak_inv(s),
        s.strong >= 1,
        s.data_count < usize::MAX,
    ensures
        !(release_outcome_spec(s.data_count as usize, share_last) is Kept) <==> weak_arc_release(
            s,
        ).data_gone,
        weak_arc_release(s).data_gone <==> s.strong == 1,
{
}

impl<T> std::ops::Deref for Arc<T> {
    type Target = T;

    /// The shared value, as `get` returns it.
    fn deref(&self) -> (r: &T)
        ensures
            *r == self.value(),
    {
        &self.ptr.data
    }
}

} // verus!

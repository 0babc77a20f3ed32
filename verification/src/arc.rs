//! A reference-counted shared pointer: one count of the live handles, raised by each
//! clone and lowered by each release; the last release frees the data.
use std::sync::atomic::AtomicUsize;
use std::sync::atomic::Ordering;
use vstd::prelude::*;

use crate::atomic::fetch_add_usize;
use crate::atomic::fetch_sub_usize;
use crate::observed::Updated;

verus! {

/// Whether a clone that raised the count from `old` must abort the process: past half
/// the address space the count could only have come from a leak, and letting it grow
/// further could wrap it around.
pub open spec fn clone_aborts(old: int) -> bool {
    old > usize::MAX / 2
}

/// Whether a release that lowered the count from `old` was the last one, which frees
/// the data.
pub open spec fn release_frees(old: int) -> bool {
    old == 1
}

/// `clone_aborts` of a count as read from the atomic.
pub open spec fn clone_aborts_at(old: usize) -> bool {
    clone_aborts(old as int)
}

/// `release_frees` of a count as read from the atomic.
pub open spec fn release_frees_at(old: usize) -> bool {
    release_frees(old as int)
}

/// `count_unique` of a count as read from the atomic.
pub open spec fn count_unique_at(count: usize) -> bool {
    count_unique(count as int)
}

/// Decides from the count a clone replaced whether the process must abort.
pub fn must_abort(old: usize) -> (abort: bool)
    ensures
        abort == clone_aborts(old as int),
        abort <==> old > usize::MAX / 2,
{
    old > usize::MAX / 2
}

/// Decides from the count a release replaced whether it was the last handle.
pub fn was_last(old: usize) -> (last: bool)
    ensures
        last == release_frees(old as int),
        last <==> old == 1,
{
    old == 1
}

/// Whether a count of `count` means the handle that read it is the only one.
pub open spec fn count_unique(count: int) -> bool {
    count == 1
}

/// Decides from a count read by a handle whether that handle is the only one.
pub fn is_unique(count: usize) -> (unique: bool)
    ensures
        unique == count_unique(count as int),
        unique <==> count == 1,
{
    count == 1
}

struct ArcData<T> {
    ref_count: AtomicUsize,
    data: T,
}

/// A shared handle to a value of type `T`.
pub struct Arc<T> {
    ptr: std::sync::Arc<ArcData<T>>,
}

impl<T> Arc<T> {
    /// The value shared by this handle.
    pub closed spec fn value(&self) -> T {
        self.ptr.data
    }

    /// Puts `data` in a fresh allocation, with a count of one.
    pub fn new(data: T) -> (a: Self)
        ensures
            a.value() == data,
    {
        Arc { ptr: std::sync::Arc::new(ArcData { ref_count: AtomicUsize::new(1), data }) }
    }

    /// The shared value.
    pub fn get(&self) -> (r: &T)
        ensures
            *r == self.value(),
    {
        &self.ptr.data
    }

    /// Another handle to the same value: adds one to the count, and returns it with the
    /// addition; `None` exactly when the count it replaced was past `usize::MAX / 2`, where
    /// the process must abort.
    pub fn try_clone(&self) -> (r: (Option<Self>, Updated<usize>))
        ensures
            r.1.operand@ == 1,
            r.0 is None <==> clone_aborts_at(r.1.prev),
            r.0 is None <==> r.1.prev > usize::MAX / 2,
            r.0 matches Some(a) ==> a.value() == self.value(),
    {
        let x = fetch_add_usize(&self.ptr.ref_count, 1, Ordering::Relaxed);
        if must_abort(x.prev) {
            (None, x)
        } else {
            (Some(Arc { ptr: self.ptr.clone() }), x)
        }
    }

    /// A mutable reference to the value when this is the only handle: the count reads one,
    /// and no other handle exists that could reach the value. Since the allocation is a
    /// `std::sync::Arc`, std's own count must be one as well: in the short window where
    /// another handle's `release` has lowered the count but not yet dropped its share of the
    /// allocation, the result is `None`.
    pub fn get_mut(arc: &mut Self) -> (r: (Option<&mut T>, usize))
        ensures
            r.0 is Some ==> count_unique_at(r.1),
            r.0 is Some ==> r.1 == 1,
            r.0 matches Some(v) ==> *v == old(arc).value() && final(arc).value() == *final(v),
            r.0 is None ==> final(arc).value() == old(arc).value(),
    {
        let count = arc.ptr.ref_count.load(Ordering::Relaxed);
        if is_unique(count) {
            crate::atomic::acquire_fence();
            match crate::atomic::arc_get_mut(&mut arc.ptr) {
                Some(d) => (Some(&mut d.data), count),
                None => (None, count),
            }
        } else {
            (None, count)
        }
    }

    /// Gives the handle up: subtracts one from the count with release ordering, and
    /// returns whether it was the last handle, whose release frees the data, with the
    /// subtraction: it was the last exactly when the count it replaced was one.
    pub fn release(self) -> (r: (bool, Updated<usize>))
        ensures
            r.1.operand@ == 1,
            r.0 == release_frees_at(r.1.prev),
            r.0 <==> r.1.prev == 1,
    {
        let x = fetch_sub_usize(&self.ptr.ref_count, 1, Ordering::Release);
        let last = was_last(x.prev);
        if last {
            crate::atomic::acquire_fence();
        }
        (last, x)
    }
}

/// The live handles, the clones under way (each has raised the count but not yet made its
/// handle; `doomed` ones found the count past the abort threshold), and whether the data
/// was freed or the process aborted.
pub struct ArcSystem {
    pub handles: nat,
    pub cloning: nat,
    pub doomed: nat,
    pub freed: bool,
    pub aborted: bool,
}

/// The value of the shared count.
pub open spec fn arc_count(s: ArcSystem) -> int {
    (s.handles + s.cloning + s.doomed) as int
}

/// Right after `new`: one handle.
pub open spec fn arc_init() -> ArcSystem {
    ArcSystem { handles: 1, cloning: 0, doomed: 0, freed: false, aborted: false }
}

/// A thread holding a handle raises the count to clone it.
pub open spec fn arc_clone_start(s: ArcSystem) -> ArcSystem {
    if clone_aborts(arc_count(s)) {
        ArcSystem { doomed: s.doomed + 1, ..s }
    } else {
        ArcSystem { cloning: s.cloning + 1, ..s }
    }
}

/// A clone that passed the check makes its handle.
pub open spec fn arc_clone_finish(s: ArcSystem) -> ArcSystem {
    ArcSystem { cloning: (s.cloning - 1) as nat, handles: s.handles + 1, ..s }
}

/// A clone that failed the check aborts the process.
pub open spec fn arc_abort(s: ArcSystem) -> ArcSystem {
    ArcSystem { aborted: true, ..s }
}

/// A handle is released; the last release frees the data.
pub open spec fn arc_release(s: ArcSystem) -> ArcSystem {
    ArcSystem {
        handles: (s.handles - 1) as nat,
        freed: release_frees(arc_count(s)),
        ..s
    }
}

/// A move of the system: only while it runs (no abort, data not freed), a clone from a
/// live handle, the end of a clone, an abort, or the release of a handle that no clone
/// under way is reading from.
pub open spec fn arc_next(s: ArcSystem, s2: ArcSystem) -> bool {
    &&& !s.aborted
    &&& !s.freed
    &&& {
        ||| (s.handles >= 1 && s2 == arc_clone_start(s))
        ||| (s.cloning >= 1 && s2 == arc_clone_finish(s))
        ||| (s.doomed >= 1 && s2 == arc_abort(s))
        ||| (s.handles >= 1 && (s.handles > 1 || s.cloning + s.doomed == 0) && s2 == arc_release(
            s,
        ))
    }
}

/// What holds in every reachable state: until the data is freed there is a live handle;
/// once it is freed there is no handle and no clone under way; and the handles plus the
/// clones that passed the check never pass the abort threshold by more than one.
pub open spec fn arc_inv(s: ArcSystem) -> bool {
    &&& s.freed ==> s.handles == 0 && s.cloning == 0 && s.doomed == 0
    &&& !s.freed ==> s.handles >= 1
    &&& s.handles + s.cloning <= usize::MAX / 2 + 1
}

/// Law: a fresh `Arc` satisfies the invariant.
pub proof fn lemma_arc_init()
    ensures
        arc_inv(arc_init()),
{
}

/// Law: every move keeps the invariant.
pub proof fn lemma_arc_next(s: ArcSystem, s2: ArcSystem)
    requires
        arc_inv(s),
        arc_next(s, s2),
    ensures
        arc_inv(s2),
{
}

/// Law: a release frees the data exactly when it gives up the last handle and no clone is
/// under way, so the data is never freed while a handle can still reach it.
pub proof fn lemma_arc_release_frees(s: ArcSystem)
    requires
        arc_inv(s),
        arc_next(s, arc_release(s)),
    ensures
        arc_release(s).freed <==> (s.handles == 1 && s.cloning == 0 && s.doomed == 0),
        arc_release(s).freed ==> arc_release(s).handles == 0,
{
}

/// Law: the count stays at most one past the abort threshold plus the clones that are
/// about to abort. Each of those is a thread between its increment and its abort, so with
/// fewer than `usize::MAX / 2` threads the count can never wrap around.
pub proof fn lemma_arc_count_bound(s: ArcSystem)
    requires
        arc_inv(s),
    ensures
        arc_count(s) <= usize::MAX / 2 + 1 + s.doomed,
{
}

/// Law: a handle that reads a count of one is the only handle, and no clone is under way,
/// so handing out `&mut` access to the data is sound.
pub proof fn lemma_arc_unique(s: ArcSystem)
    requires
        arc_inv(s),
        !s.freed,
        count_unique(arc_count(s)),
    ensures
        s.handles == 1,
        s.cloning == 0,
        s.doomed == 0,
{
}

/// Law: the count decisions, over every count: a clone aborts exactly past half the
/// address space, a release is the last exactly when it replaced a count of one, and a
/// handle is unique exactly when it reads a count of one.
pub proof fn lemma_count_decisions(c: int, u: usize)
    ensures
        clone_aborts(c) <==> c > usize::MAX / 2,
        release_frees(c) <==> c == 1,
        count_unique(c) <==> c == 1,
        clone_aborts_at(u) <==> u > usize::MAX / 2,
        release_frees_at(u) <==> u == 1,
        count_unique_at(u) <==> u == 1,
{
}

/// Law: a clone from a count at most `usize::MAX / 2` goes ahead (it is a clone under
/// way, not one about to abort), and one from a larger count aborts.
pub proof fn lemma_arc_clone_start(s: ArcSystem)
    ensures
        arc_count(s) <= usize::MAX / 2 ==> arc_clone_start(s).cloning == s.cloning + 1
            && arc_clone_start(s).doomed == s.doomed,
        arc_count(s) > usize::MAX / 2 ==> arc_clone_start(s).doomed == s.doomed + 1
            && arc_clone_start(s).cloning == s.cloning,
        arc_clone_start(s).handles == s.handles,
{
}

impl<T> std::ops::Deref for Arc<T> {
    type Target = T;

    /// The shared value, as `get` returns it.
    fn deref(&self) -> (r: &T)
        ensures
            *r == self.value(),
    {
        &self.ptr.data
    }
}

} // verus!

//! Compare-and-exchange: what it does, and the small lock-free algorithms built on it.
use std::sync::atomic::AtomicU32;
use std::sync::atomic::AtomicU64;
use std::sync::atomic::Ordering;
use vstd::prelude::*;

use crate::atomic::compare_exchange_u32;
use crate::atomic::compare_exchange_u64;
use crate::atomic::compare_exchange_weak_u32;
use crate::observed::exchange_leaves;
use crate::observed::Exchanged;

verus! {

/// The value a compare-and-exchange leaves behind: `new` when the cell held `expected`,
/// the old value otherwise.
pub open spec fn cas_next(current: i32, expected: i32, new: i32) -> i32 {
    if current == expected { new } else { current }
}

/// What a compare-and-exchange returns: the old value, as `Ok` when it matched.
pub open spec fn cas_result(current: i32, expected: i32) -> Result<i32, i32> {
    if current == expected { Ok(current) } else { Err(current) }
}

/// An `i32` cell with the semantics of an atomic integer, seen from one thread at a time:
/// every operation takes effect as one indivisible step.
pub struct AtomicI32 {
    value: i32,
}

impl View for AtomicI32 {
    type V = i32;

    closed spec fn view(&self) -> i32 {
        self.value
    }
}

impl AtomicI32 {
    /// A cell holding `v`.
    pub fn new(v: i32) -> (a: Self)
        ensures
            a@ == v,
    {
        AtomicI32 { value: v }
    }

    /// The value held.
    pub fn load(&self) -> (v: i32)
        ensures
            v == self@,
    {
        self.value
    }

    /// Replaces the value held by `v`.
    pub fn store(&mut self, v: i32)
        ensures
            final(self)@ == v,
    {
        self.value = v;
    }

    /// Adds `v` to the value, wrapping around on overflow, and returns the value it
    /// replaced.
    pub fn fetch_add(&mut self, v: i32) -> (prev: i32)
        ensures
            prev == old(self)@,
            final(self)@ == old(self)@.wrapping_add(v),
    {
        let prev = self.value;
        self.value = self.value.wrapping_add(v);
        prev
    }

    /// Stores `new` if the cell holds `expected`, and returns the value it held: `Ok` when
    /// it matched and the store took place, `Err` otherwise.
    pub fn compare_exchange(&mut self, expected: i32, new: i32) -> (r: Result<i32, i32>)
        ensures
            r == cas_result(old(self)@, expected),
            final(self)@ == cas_next(old(self)@, expected, new),
    {
        let v = self.load();
        if v == expected {
            self.store(new);
            Ok(v)
        } else {
            Err(v)
        }
    }
}

/// Law: a compare-and-exchange succeeds exactly when the cell held the expected value;
/// it then returns that value and leaves `new`; otherwise it returns what the cell held
/// and leaves it unchanged.
pub proof fn lemma_cas_success_iff_match(current: i32, expected: i32, new: i32)
    ensures
        cas_result(current, expected) is Ok <==> current == expected,
        cas_result(current, expected) is Ok ==> cas_next(current, expected, new) == new,
        cas_result(current, expected) is Err ==> cas_next(current, expected, new) == current,
        match cas_result(current, expected) {
            Ok(v) => v == current,
            Err(v) => v == current,
        },
{
}

/// One round of the retry loop that adds one to a shared counter: a compare-and-exchange
/// from `current`, the value last read, to `current + 1`, returned as it came. `Ok` means
/// the counter held `current` and now holds `current + 1`; `Err(v)` carries the value found
/// instead, which differs from `current` and is left unchanged, and is the value to retry
/// from.
pub fn increment_attempt(a: &AtomicU32, current: u32) -> (r: Exchanged<u32>)
    requires
        current < u32::MAX,
    ensures
        r.new@ == current + 1,
        r.result matches Ok(v) ==> v == current,
        r.result matches Err(v) ==> v != current,
        exchange_leaves(r) == increment_leaves(current, r.result),
{
    compare_exchange_u32(a, current, current + 1, Ordering::Relaxed, Ordering::Relaxed)
}

/// The counter after one increment round from `current`: `current + 1` when the exchange
/// succeeded, the value it found otherwise.
pub open spec fn increment_leaves(current: u32, result: Result<u32, u32>) -> int {
    match result {
        Ok(_) => current + 1,
        Err(v) => v as int,
    }
}

/// The counter and the number of rounds that succeeded.
pub struct IncState {
    pub counter: int,
    pub done: nat,
    pub start: int,
}

/// A round that read `observed`: its exchange succeeds exactly when the counter still holds
/// that value, and then adds one.
pub open spec fn inc_round(s: IncState, observed: int) -> IncState {
    if s.counter == observed {
        IncState { counter: s.counter + 1, done: s.done + 1, ..s }
    } else {
        s
    }
}

/// What holds throughout: the counter is its start plus the successful rounds.
pub open spec fn inc_inv(s: IncState) -> bool {
    s.counter == s.start + s.done
}

/// Law: no increment is lost. Whatever value each round read, every round that succeeds
/// adds exactly one and every round that fails changes nothing, so the counter always
/// equals its start plus the number of successful rounds.
pub proof fn lemma_inc_round(s: IncState, observed: int)
    requires
        inc_inv(s),
    ensures
        inc_inv(inc_round(s, observed)),
        inc_round(s, observed).done == s.done + (if s.counter == observed { 1int } else { 0int }),
{
}

/// How many identifiers the allocator hands out.
pub const ID_LIMIT: u32 = 1000;

/// Outcome of one round of the identifier allocator.
pub enum IdAttempt {
    /// The identifier was claimed.
    Issued(u32),
    /// Another thread moved the counter first (or the exchange failed spuriously); retry
    /// from this value.
    Retry(u32),
}

/// Whether identifier `id` may still be handed out. Once the counter reads the limit the
/// allocator panics with "too many IDs!" instead of attempting a round.
pub fn id_available(id: u32) -> (available: bool)
    ensures
        available == (id < ID_LIMIT),
        available <==> id < 1000,
{
    id < ID_LIMIT
}

/// One round of the bounded identifier allocator: with `id` the value last read from
/// `next_id`, below the limit (the caller checks with `id_available` and panics
/// otherwise), try to move the counter from `id` to `id + 1`, which claims `id`. Returns
/// the outcome with the exchange: `Issued(id)` exactly when it succeeded, which means the
/// counter held `id`; `Retry(v)` with the value `v` it found otherwise.
pub fn allocate_id_attempt(next_id: &AtomicU32, id: u32) -> (r: (IdAttempt, Exchanged<u32>))
    requires
        id < ID_LIMIT,
    ensures
        r.1.new@ == id + 1,
        r.1.result is Ok <==> r.0 is Issued,
        r.1.result matches Ok(v) ==> v == id,
        r.0 matches IdAttempt::Issued(v) ==> v == id,
        r.1.result matches Err(e) ==> r.0 == IdAttempt::Retry(e),
{
    let x = compare_exchange_weak_u32(next_id, id, id + 1, Ordering::Relaxed, Ordering::Relaxed);
    match x.result {
        Ok(_) => (IdAttempt::Issued(id), x),
        Err(v) => (IdAttempt::Retry(v), x),
    }
}

/// The allocator's counter and the identifiers handed out so far.
pub struct IdState {
    pub next: nat,
    pub issued: Set<nat>,
}

/// The state before any identifier is handed out.
pub open spec fn id_init() -> IdState {
    IdState { next: 0, issued: Set::empty() }
}

/// A successful round: the counter held `id`, below the limit, and moves to `id + 1`.
pub open spec fn id_claim(s: IdState, id: nat) -> IdState {
    IdState { next: id + 1, issued: s.issued.insert(id) }
}

/// A round can claim `id` only when the counter holds it and it is below the limit.
pub open spec fn id_claim_enabled(s: IdState, id: nat) -> bool {
    s.next == id && id < ID_LIMIT
}

/// What holds of every state the allocator reaches: the identifiers handed out are
/// exactly those below the counter, and the counter never passes the limit.
pub open spec fn id_inv(s: IdState) -> bool {
    &&& s.next <= ID_LIMIT
    &&& forall|i: nat| #[trigger] s.issued.contains(i) <==> i < s.next
}

/// Law: the allocator starts in a state where its invariant holds.
pub proof fn lemma_id_init()
    ensures
        id_inv(id_init()),
{
}

/// Law: every claim keeps the invariant, and the identifier it hands out is below the
/// limit and was never handed out before, so no two threads get the same identifier.
pub proof fn lemma_id_claim_fresh(s: IdState, id: nat)
    requires
        id_inv(s),
        id_claim_enabled(s, id),
    ensures
        !s.issued.contains(id),
        id < ID_LIMIT,
        id_inv(id_claim(s, id)),
{
}

/// Which value an installation of `own` by compare-and-exchange ends up using, from what
/// the exchange returned: `own` when it won, the value another thread installed first when
/// it lost.
pub open spec fn install_winner<V>(r: Result<V, V>, own: V) -> V {
    match r {
        Ok(_) => own,
        Err(other) => other,
    }
}

/// Decides, from what the compare-and-exchange that tried to install `own` returned, which
/// value to use, and whether `own` lost the race (and must be discarded).
pub fn after_install<V>(r: Result<V, V>, own: V) -> (w: (V, bool))
    ensures
        w.0 == install_winner(r, own),
        w.1 == r is Err,
        r is Ok ==> w.0 == own,
        r matches Err(other) ==> w.0 == other,
{
    match r {
        Ok(_) => (own, false),
        Err(other) => (other, true),
    }
}

/// The key, given `current`, the value just read from `key` (zero means no key yet), with
/// the installation exchange, if one was tried. An installed key is returned as read,
/// without calling `generate` or installing anything. Otherwise `generate` makes a key and a
/// compare-and-exchange from zero installs exactly that key: the result is the generated
/// key when the install wins and the key another thread installed first (nonzero) when it
/// loses.
pub fn get_key_from<F: FnOnce() -> u64>(key: &AtomicU64, current: u64, generate: F) -> (r: (
    u64,
    Option<Exchanged<u64>>,
))
    requires
        generate.requires(()),
    ensures
        current != 0 ==> r.0 == current && r.1 is None,
        current == 0 ==> r.1 is Some,
        r.1 matches Some(x) ==> generate.ensures((), x.new@) && r.0 == install_winner(
            x.result,
            x.new@,
        ),
        r.1 matches Some(x) ==> (x.result matches Ok(v) ==> v == 0),
        r.1 matches Some(x) ==> (x.result matches Err(other) ==> other != 0),
        r.0 == 0 ==> current == 0 && generate.ensures((), 0u64),
{
    if current == 0 {
        let new_key = generate();
        let x = compare_exchange_u64(key, 0, new_key, Ordering::Relaxed, Ordering::Relaxed);
        let (k, _lost) = after_install(x.result, new_key);
        (k, Some(x))
    } else {
        (current, None)
    }
}

/// Returns the process-wide key held in `key`, installing one made by `generate` if none is
/// there yet: a load followed by `get_key_from`. The result is zero only when `generate`
/// produced zero.
pub fn get_key<F: FnOnce() -> u64>(key: &AtomicU64, generate: F) -> (k: u64)
    requires
        generate.requires(()),
    ensures
        k == 0 ==> generate.ensures((), 0u64),
{
    let current = key.load(Ordering::Relaxed);
    let (k, _installed) = get_key_from(key, current, generate);
    k
}

/// The key after one installation attempt of `new_key`: it replaces the key only when none
/// (zero) is installed.
pub open spec fn key_install(current: u64, new_key: u64) -> u64 {
    if current == 0 { new_key } else { current }
}

/// Law: an installation by compare-and-exchange ends with its own value when the exchange
/// succeeded and with the value another thread installed first when it failed; and a key
/// installation replaces the key exactly when none (zero) was there.
pub proof fn lemma_install(r: Result<u64, u64>, own: u64, current: u64, new_key: u64)
    ensures
        r is Ok ==> install_winner(r, own) == own,
        r matches Err(other) ==> install_winner(r, own) == other,
        current == 0 ==> key_install(current, new_key) == new_key,
        current != 0 ==> key_install(current, new_key) == current,
{
}

/// Law: identifiers run from 0 to 999; an increment round leaves `current + 1` when its
/// exchange succeeded and the value it found otherwise.
pub proof fn lemma_limits_and_rounds(current: u32, r: Result<u32, u32>)
    ensures
        ID_LIMIT == 1000,
        r is Ok ==> increment_leaves(current, r) == current + 1,
        r matches Err(v) ==> increment_leaves(current, r) == v,
{
}

/// Law: once a key is installed, no later installation attempt changes it, so every call
/// made after that returns the same key.
pub proof fn lemma_key_stable(current: u64, new_key: u64)
    requires
        current != 0,
    ensures
        key_install(current, new_key) == current,
{
}

} // verus!

//! What one atomic operation returned, with the operand it was handed, so that contracts
//! can say what each operation asked the atomic to do.
use vstd::prelude::*;

verus! {

/// A compare-and-exchange: its result as std returns it, and the value it was asked to
/// store.
pub struct Exchanged<T> {
    pub result: Result<T, T>,
    pub new: Ghost<T>,
}

/// The value a compare-and-exchange left in the atomic: the value it stored when it
/// succeeded, the value it found (unchanged) when it failed.
pub open spec fn exchange_leaves<T>(x: Exchanged<T>) -> T {
    match x.result {
        Ok(_) => x.new@,
        Err(v) => v,
    }
}

/// Law: an exchange that succeeded left the value it stored; one that failed left the
/// value it found.
pub proof fn lemma_exchange_leaves<T>(x: Exchanged<T>)
    ensures
        x.result is Ok ==> exchange_leaves(x) == x.new@,
        x.result matches Err(v) ==> exchange_leaves(x) == v,
{
}

/// A read-modify-write (swap, fetch-and-add, fetch-and-subtract): the value it replaced,
/// and its operand: the value a swap stored, or the amount added or subtracted.
pub struct Updated<T> {
    pub prev: T,
    pub operand: Ghost<T>,
}

/// Which futex wake an operation made: of one sleeper, or of all of them.
pub enum Wake {
    One,
    All,
}

} // verus!

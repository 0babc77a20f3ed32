//! Lock-free counters, spin locks, futex mutexes, condition variables and
//! reference-counted pointers built on atomics, with their protocols verified.

mod atomic;
pub mod observed;
pub mod cas;

pub mod spin_lock;
pub mod mutex;
pub mod condvar;
pub mod arc;
pub mod weak;
pub mod borrowing;

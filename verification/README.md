# atomics_locks

Building blocks of concurrent Rust on atomics: a compare-and-exchange cell and the
lock-free loops built on it, a spin lock, a three-state futex mutex, a condition
variable, and two reference-counted pointers (one with weak handles).

`src/` is the verified library. Each protocol appears twice there: as executable rounds,
each performing one step on its atomics, and as a model of every thread's position in the
protocol, whose invariant (mutual exclusion, no lost wake-up, no lost increment, no use
after free, no resurrection after the last release, bounded counts) is proved preserved
by every step. Each round returns what its atomic operations returned, together with (as
ghosts) the operands it handed them, and its contract states over these values what the
round decided and what it asked each atomic to do, using the spec functions the model's
steps use. What the atomics held between operations is not visible to verified code, so
the invariants themselves are proved of the models.

A retry loop on a value that other threads change has no termination measure, so
`src/` provides each round of such a loop and `app/` repeats the rounds. `app/` also
holds what needs `unsafe` (values behind `UnsafeCell`, raw pointers, system calls
through libc) and the demonstration programs.

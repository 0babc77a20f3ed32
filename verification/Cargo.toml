[package]
name = "atomics_locks"
version = "0.1.0"
edition = "2021"
publish = false

[dependencies]
atomic-wait = "=1.1.0"
libc = "=0.2.191"

[dev-dependencies]
crossbeam-utils = "0.8"

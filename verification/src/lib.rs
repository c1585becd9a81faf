//! A bridge between host closures and a native WebAssembly engine.
//!
//! The engine knows a host function only as an opaque key and a fixed
//! trampoline. This crate keeps the tables that give the key a meaning
//! (the closure registry and the footprint table), decides what the
//! trampoline answers, tracks the shared handles to native contexts so
//! that a closure is freed once and only when its last owner lets go,
//! and rewrites a host function's signature into the shape the
//! trampoline calls.
//!
//! The engine itself is not part of the crate. What it answers comes in
//! as plain values (an address, a length, a list of names), and what it
//! has to do next goes out as a list of [`bridge::Step`]s. An address is
//! a `usize`, and the null address is 0.
//!
//! - [`value`]: value types, tagged values and their encoding.
//! - [`error`]: what a closure reports, what the engine is answered, and
//!   the errors of the bridge.
//! - [`bridge`]: the tables of a process, and the key of a registration.
//! - [`trampoline`]: the dispatch of a call to the closure behind a key.
//! - [`function`]: function handles and types, from creation to
//!   teardown.
//! - [`module`]: module instances and import modules, which own function
//!   handles.
//! - [`rewrite`]: the signature rewriter.
//! - [`laws`]: what holds over several operations: keys are unique,
//!   teardown happens once and at the last release, a handle found in a
//!   module never tears down.
//!
//! No function here panics or aborts. Where an input is beyond repair (a
//! closure that returns the wrong number of values, a teardown without a
//! footprint, a signature that fits no rule), the function leaves it out
//! by `requires`, and a test beside it names the fault for a caller that
//! has to abort.
//!
//! Nothing here locks. A process that shares one bridge between threads
//! keeps it behind a lock of its own, and a closure behind another: a
//! lookup borrows the bridge only until the closure is found.

pub mod bridge;
pub mod error;
pub mod function;
pub mod laws;
pub mod module;
pub mod rewrite;
pub mod trampoline;
pub mod value;

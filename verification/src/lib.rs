//! Use async/await syntax with actix actors.
//!
//! A future that is spawned onto an actor is polled through
//! [`FutureInteropWrap`](interop::FutureInteropWrap), which puts the actor's
//! state and context in scope while the future runs. From within,
//! [`with_ctx`](context::with_ctx) borrows both, and
//! [`critical_section`](context::critical_section) runs a chunk of async code
//! with exclusive access to the actor: the chunk is handed to the actor's
//! context to be waited for, and its output comes back through a
//! [`LocalHandle`](local_handle::LocalHandle).
//!
//! - `context`: access to the actor in scope, and critical sections.
//! - `interop`: the adapters that poll futures and streams in scope.
//! - `local_handle`: the two halves of a critical section.
//! - `schedule`: what exclusive access means for the order of polls.
//! - `transfer`: the one-shot channel that carries an output to its handle.
//!
//! What only a running actor system can do (keeping a scope in thread-local
//! storage, registering a future with a context) is handed in as a closure, and
//! each contract says on which values the closure was called.

pub mod context;
pub mod interop;
pub mod local_handle;
pub mod schedule;
pub mod transfer;

pub use context::{critical_section, with_ctx};
pub use interop::{FutureInterop, FutureInteropWrap, StreamInterop, StreamInteropWrap};

//! Lifecycle bridge for an embedded, process-global network proxy engine.
//!
//! The engine itself is an opaque native component with a process-style
//! `argc`/`argv` entry point; it blocks the calling thread for the whole
//! session and is shut down indirectly, by forcing its listening socket into
//! an error state from another thread.  This crate holds the bridge's own
//! logic — the at-most-one-instance lifecycle guard, the argument
//! marshalling, and the start/stop decision rules — as verified code.  The
//! host-facing entry points, the native calls and the socket shutdown live
//! outside the library, and only act on the decisions made here.

pub mod argv;
pub mod bridge;
pub mod lifecycle;

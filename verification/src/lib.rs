//! A local, content-addressed cache in front of a process executor.
//!
//! A `cache::CommandRunner` wraps an underlying executor.  Before running a
//! process it derives a fingerprint of the request, looks the fingerprint up
//! in a durable byte store, and — when a stored result is eligible and all of
//! the content it references is still reachable — returns the stored result
//! without executing.  Otherwise it executes, and writes eligible results
//! back.  Cache-read and cache-write failures never fail a run; only the
//! executor's own failure does.

pub mod cache;
pub mod clock;
pub mod codec;
pub mod digest;
pub mod model;
pub mod runner;
pub mod store;

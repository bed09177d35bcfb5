//! Core logic of a concurrent connection-pool manager.
//!
//! The pool multiplexes calls over a fixed set of lazily-established node
//! connections. This crate holds the decision logic of that manager, each
//! function with a proved contract: classification of remote failures and the
//! bounded retry policy, the per-slot lazy-establishment state machine,
//! uniform random slot selection, per-slot keystore path planning, and the
//! one-shot trust-checkpoint patch run before any connection is opened.
//! The asynchronous plumbing that drives these decisions (network calls,
//! timers, guards) lives outside the crate and feeds events in as plain
//! values.

pub mod checkpoint;
pub mod error;
pub mod keystore;
pub mod pool;
pub mod retry;
pub mod slot;

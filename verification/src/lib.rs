//! An allocation-free cooperative task executor for fixed task sets.
//!
//! The crate drives a bounded collection of suspendable computations
//! ("tasks") to completion. Each task carries a wake status; an executor
//! scans the task set round by round, polls every task that is due, and
//! stops once every task has terminated. External readiness signals reach
//! the executor through wake conduits and a bounded event-source registry.

pub mod marshall;
pub mod task;
pub mod manager;
pub mod executor;
pub mod registry;
pub mod maybe_send;
pub mod context;

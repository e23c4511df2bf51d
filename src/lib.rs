//! Coordination core of a fixed-size worker pool.
//!
//! The pool hands one-shot jobs to a bounded set of long-lived workers.
//! This crate holds the state that the runtime guards with one lock: the
//! job queue, the worker roster, and the decisions a worker makes each time
//! it holds the lock. Threads, locks and wake-ups belong to the runtime that
//! drives these types.
pub mod pool;
pub mod queue;
pub mod worker;

//! A bounded-concurrency job executor, verified with Verus.
//!
//! Callers register a job function and a limit on concurrently running
//! workers, submit inputs through a [`WorkerChannel`] and later take each result
//! by the id that the submission returned.
//!
//! The crate holds the pool's logic: the slot counter, the result store, the
//! decisions of the dispatcher and of each worker, the builder and the client
//! handle. Starting threads and sleeping are left to the caller's runtime,
//! which drives the [`Dispatcher`] one event at a time.
pub mod builder;
pub mod dispatcher;
pub mod limiter;
pub mod store;
mod sync;
pub mod task;
pub mod worker;

pub use crate::builder::{Config, Mutable, NoHook, ReadOnly, SimpBuilder};
pub use crate::dispatcher::{Action, Dispatcher, Event, Job, POLL_INTERVAL_MS};
pub use crate::limiter::{Limiter, SlotOp, Slots};
pub use crate::store::ResultStore;
pub use crate::task::{Task, TaskAction, TaskEvent};
pub use crate::worker::{
    acquire_slot, await_job, free_slots_locked, open_pool, poll_locked, release_locked,
    results_held_locked, run_worker, store_locked, submission_result, take_locked, PoolParts,
    SubmissionError, WorkerChannel, WorkerSide,
};

//! Verified core of an asynchronous job-processing service.
//!
//! Jobs are submitted by name, tracked in a registry keyed by a
//! monotonically increasing id, and wait in a FIFO queue for one of a pool
//! of workers. A worker dequeues an id, marks the job Processing, executes
//! it, and resolves the attempt: success completes the job, a transient
//! failure re-queues it while retry budget remains, and an exhausted budget
//! marks it permanently Failed.
//!
//! This crate holds the shared state and every state transition, each with
//! a contract; the surrounding process (HTTP boundary, worker tasks, clock,
//! and randomness) drives these operations from outside.

pub mod laws;
pub mod models;
pub mod state;
pub mod worker;

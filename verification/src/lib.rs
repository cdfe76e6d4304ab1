//! Planning core of a block backfill: which JSON-RPC requests to make, how to
//! read the chain height out of a reply, and in which order, and how many at a
//! time, the block jobs of a run are launched.
//!
//! Nothing here performs I/O. The caller sends the requests, waits for jobs,
//! and reports what happened; every decision is taken here.

pub mod hex;
pub mod rpc;
pub mod height;
pub mod queue;
pub mod scheduler;
pub mod job;
pub mod run;

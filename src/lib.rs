//! Typed, read-only view of the runtime state that a background-job system
//! keeps in a key-value store: process heartbeats, worker tables, queues and
//! the retry, schedule and dead sets.
//!
//! The library decodes the store's raw string payloads strictly: unknown
//! fields, missing fields and values of the wrong type are errors, and
//! documents nested inside a field are decoded in a second pass.

pub mod json;
pub mod fields;
pub mod job;
pub mod process;
pub mod collection;

pub use fields::{AssemblyError, DecodeError};
pub use job::{Job, Retry, RetryInfo, Timestamp};
pub use process::{Process, ProcessInfo, Worker, assemble_workers};
pub use collection::{Collection, CollectionKind, decode_jobs, range_bounds, workers_key,
    PROCESSES_KEY, QUEUES_KEY};

//! Host resource sampling and health aggregation.
//!
//! Readings of processor load, memory and disk space are taken from a
//! [`collector::Collector`], reduced to one number per [`metric::MetricKind`],
//! bundled into a [`snapshot::Snapshot`] and kept in a cache with a staleness
//! window. The operating system is one such collector, through `sysinfo`.
//!
//! Every function in this crate is verified against its contract. What the
//! collector reports is not known in advance, so the functions that ask a
//! collector state what holds of every answer, and the functions that work on
//! readings already in hand state exactly what they return.
//!
//! The crate reads no clock. An instant is a count of ticks of a monotonic
//! clock that the caller reads, and ages and time limits are counted in the
//! same ticks.

pub mod usage;
pub mod metric;
pub mod error;
pub mod collector;
pub mod sample;
pub mod aggregate;
pub mod sampler;
pub mod query;
pub mod snapshot;
pub mod health;
pub mod cache;
pub mod coordinator;
pub mod host;

pub use host::{
    availabe_num_cpus, available_memory, available_space, total_memory, total_num_cpus,
    total_space,
};

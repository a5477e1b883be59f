//! A load-generation and latency-measurement harness for a publish/subscribe
//! messaging system.
//!
//! The harness drives rate-limited publisher workers and subscriber workers
//! against shared topics, aggregates message counters and latency samples,
//! and reports throughput and latency-percentile statistics for a bounded
//! test window.

pub mod config;
pub mod latency;
pub mod mcp;
pub mod monitor;
pub mod node;
pub mod numfmt;
pub mod results;
pub mod topic;
pub mod worker;

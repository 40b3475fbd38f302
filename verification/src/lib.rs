//! Core of a container-monitoring agent.
//!
//! Raw counter samples taken from a container runtime are turned into totals
//! and exact rates, and the latest computed snapshot is kept for readers by a
//! polling state machine. The library makes no call to the runtime and keeps
//! no clock: whoever drives it performs the actions that the state machine
//! waits for, and hands it the answers and the time.
//!
//! - [`sample`]: raw samples, as the runtime reports them
//! - [`rate`]: exact rates of change
//! - [`rate_computer`]: from counters to totals and rates
//! - [`stat`]: the figures computed for one container
//! - [`cache`]: the published snapshot and the table of raw samples
//! - [`stats_source`]: where to connect, and which containers to sample
//! - [`usecases`]: the polling worker
//! - [`docker_stat_metrics`]: the gauges of a snapshot

pub mod cache;
pub mod docker_stat_metrics;
pub mod rate;
pub mod rate_computer;
pub mod sample;
pub mod stat;
pub mod stats_source;
pub mod subsequence;
pub mod text;
pub mod usecases;
pub mod views;

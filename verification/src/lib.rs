//! Per-core CPU usage monitoring: a metrics store sampled from the
//! operating system at a configurable interval, published as an ordered
//! vector of per-core usage values.

pub mod config;
pub mod metrics;
mod os;
pub mod sampling;
pub mod store;

//! Synthetic telemetry traffic generator: several simulated services emit
//! severity-tagged log events at stochastic rates; the events are enriched
//! with a precomputed embedding vector, collected into bounded batches by a
//! single aggregating buffer, and fanned out to a set of sink backends.

pub mod buffer;
pub mod config;
pub mod digits;
pub mod embedding;
pub mod emitter;
pub mod env_vars;
pub mod log_entry;
pub mod sink;

//! The accelerator: its configuration, stream keys, health and gate.

pub mod config;
pub mod gate;
pub mod health;
pub mod latency;
pub mod metrics;
pub mod streams;

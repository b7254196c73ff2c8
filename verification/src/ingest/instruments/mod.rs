//! Instruments: exact decimals, per-instrument metadata, and the registry.

pub mod decimal;
pub mod registry;
pub mod spec;

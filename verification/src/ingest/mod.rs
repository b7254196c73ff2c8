//! Ingest: endpoint templates, the push-feed session, and normalization.

pub mod config;
pub mod datamap;
pub mod instruments;
pub mod metrics;
pub mod spec;
pub mod ws;

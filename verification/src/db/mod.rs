//! The primary store: configuration, routing, batches and the writer.

pub mod batch;
pub mod config;
pub mod metrics;
pub mod registry;
pub mod router;
pub mod rows;
pub mod statement;
pub mod traits;
pub mod writer;

//! Normalization of venue payloads into canonical rows.

pub mod ctx;
pub mod event;
pub mod sources;

//! Market-data ingestion and fan-out: the decisions of the ingest, normalize
//! and write pipeline, stated over plain values and proved.

pub mod appconfig;
pub mod cli;
pub mod counter;
pub mod db;
pub mod error;
pub mod exposition;
pub mod ingest;
pub mod redis;
pub mod stream;
pub mod text;

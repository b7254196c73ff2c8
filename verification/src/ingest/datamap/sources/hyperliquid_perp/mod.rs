//! The Hyperliquid perpetuals venue.

pub mod mapper;
pub mod types;

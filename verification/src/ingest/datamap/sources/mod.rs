//! The venues.

pub mod hyperliquid_perp;

//! The push feed: limiters and the connection cycle.

pub mod limiter_registry;
pub mod subscribe_limiter;
pub mod ws_client;

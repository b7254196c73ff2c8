//! Endpoint templates: the context, the values, and rendering.

pub mod resolve;
pub mod template;
pub mod tree;
pub mod types;
pub mod value;

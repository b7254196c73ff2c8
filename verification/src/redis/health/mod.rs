//! Health of the accelerator: measure, then judge.

pub mod evaluator;
pub mod poller;
pub mod types;

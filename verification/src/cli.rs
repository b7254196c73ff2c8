//! The options of the process.

use vstd::prelude::*;

verus! {

/// Where the configuration is loaded from.
#[derive(Debug, Clone, Copy, PartialEq, Eq, Structural)]
pub enum ConfigSource {
    Env,
    File,
}

/// What to do during a graceful shutdown.
#[derive(Debug, Clone, Copy, PartialEq, Eq, Structural)]
pub enum ShutdownAction {
    Nothing,
    RestoreStreams,
}

#[derive(Debug, Clone, Copy, PartialEq, Eq, Structural)]
pub struct Cli {
    pub config: ConfigSource,
    pub shutdown_action: ShutdownAction,
    /// Worker threads.
    pub workers: usize,
    pub stream_version: u32,
}

impl Cli {
    /// The options where none is given: configuration from the
    /// environment, no shutdown action, stream version 1, and as many
    /// workers as the caller found the machine to offer.
    pub fn with_defaults(workers: usize) -> (c: Cli)
        ensures
            c == (Cli {
                config: ConfigSource::Env,
                shutdown_action: ShutdownAction::Nothing,
                workers,
                stream_version: 1,
            }),
    {
        Cli {
            config: ConfigSource::Env,
            shutdown_action: ShutdownAction::Nothing,
            workers,
            stream_version: 1,
        }
    }
}

} // verus!

//! The crate-wide error type.

use vstd::prelude::*;

verus! {

/// Everything that can go wrong between a feed and the stores.
///
/// Failures of collaborators (the store, the transport, a decoder) are
/// carried as their text, so that a value of this type holds plain data only.
#[derive(Debug, Clone, PartialEq, Eq)]
pub enum AppError {
    /// Reading the configuration file failed.
    ConfigIo(String),
    /// The configuration file is not valid TOML.
    ConfigToml(String),
    /// A required configuration field is absent or empty.
    MissingConfig(String),
    /// A configuration value breaks a rule; the text says which.
    InvalidConfig(String),
    /// A template names keys that the context does not bind: all of them,
    /// each once, in the order in which rendering met them.
    MissingTemplateKey(Vec<String>),
    /// No shard has a rule that matches the routing key.
    NoShardForKey { exchange: String, stream: String, symbol: String },
    /// The instrument registry has no entry for the pair.
    UnknownInstrument { exchange: String, symbol: String },
    /// The decimal has more fractional digits than the scale can hold.
    PrecisionLoss,
    /// The text is not a decimal number, or a decimal operation has no result.
    BadDecimal,
    /// The scaled value, or a timestamp, does not fit its integer type.
    OutOfRange,
    /// A message arrived on a channel other than the one its mapper serves.
    ChannelMismatch { expected: String, found: String },
    /// The push-feed transport failed.
    WebSocket(String),
    /// An HTTP request failed in transport.
    Reqwest(String),
    /// A URL could not be parsed.
    Uri(String),
    /// A remote API answered with a non-success status.
    Api { service: String, status: u16, body: String },
    /// JSON could not be encoded or decoded.
    Json(String),
    /// The primary store failed.
    Sqlx(String),
    /// The metrics registry failed.
    Prometheus(String),
    /// The registry store has no row for the stream.
    StreamNotFound(String),
    /// The stream is registered already.
    StreamAlreadyExists(String),
    /// A limiter refused the attempt.
    RateLimited { details: String },
    /// A task could not be joined.
    TaskJoin(String),
    /// Shutdown was requested.
    Shutdown,
    /// A broken internal expectation.
    Internal(String),
    /// The accelerator failed.
    Redis(String),
    /// The accelerator was used against its rules.
    RedisLogic(String),
}

/// Crate-wide result type.
pub type AppResult<T> = Result<T, AppError>;

} // verus!

//! Accelerator configuration.

use crate::error::{AppError, AppResult};
use crate::text::{contains_sub, has_substring, to_chars};
use vstd::prelude::*;
use vstd::string::*;

verus! {

#[derive(Debug, Clone, Copy, PartialEq, Eq, Structural)]
pub enum RedisMode {
    Single,
    Cluster,
}

/// What to do with new symbols while the accelerator is saturated.
#[derive(Debug, Clone, Copy, PartialEq, Eq, Structural)]
pub enum SaturationPolicy {
    StopAssigningNew,
    ErrorNew,
    SpilloverToOtherNode,
}

/// What to do while the accelerator is down.
#[derive(Debug, Clone, Copy, PartialEq, Eq, Structural)]
pub enum DownPolicy {
    DisableRedisTemporarily,
    PauseAndRetry,
}

#[derive(Debug, Clone, Copy, PartialEq, Eq, Structural)]
pub struct ConnectionConfig {
    pub connect_timeout_ms: u64,
    pub command_timeout_ms: u64,
    pub keepalive_sec: u64,
    pub tcp_nodelay: bool,
}

#[derive(Debug, Clone, Copy, PartialEq, Eq, Structural)]
pub struct CapacityConfig {
    pub poll_interval_sec: u64,
    /// Percent of the memory ceiling above which the accelerator counts as full.
    pub max_memory_pct: u64,
    pub max_pending: u64,
    /// Milliseconds above which the rolling p99 counts as too slow.
    pub max_p99_cmd_ms: u64,
    /// How many publish latencies the rolling window holds.
    pub redis_publish_latency_window: u64,
}

#[derive(Debug, Clone, Copy, PartialEq, Eq, Structural)]
pub struct FailoverConfig {
    pub on_saturated: SaturationPolicy,
    pub on_down: DownPolicy,
}

#[derive(Debug, Clone, PartialEq, Eq)]
pub struct StreamsConfig {
    pub key_format: String,
    pub publish_trades: bool,
    pub publish_depth: bool,
    pub publish_liquidations: bool,
    pub publish_funding: bool,
    pub publish_open_interest: bool,
}

#[derive(Debug, Clone, Copy, PartialEq, Eq, Structural)]
pub struct RetentionConfig {
    pub maxlen: u64,
    pub approx: bool,
}

#[derive(Debug, Clone, PartialEq, Eq)]
pub struct GroupsConfig {
    pub feature_builder: String,
    pub ml_infer: Option<String>,
}

#[derive(Debug, Clone, PartialEq, Eq)]
pub struct RedisConfig {
    pub enabled: bool,
    pub mode: RedisMode,
    pub default_node: String,
    /// Node name and URI, in the order of the configuration.
    pub nodes: Vec<(String, String)>,
    pub connection: ConnectionConfig,
    pub capacity: CapacityConfig,
    pub failover: FailoverConfig,
    pub streams: StreamsConfig,
    pub retention: RetentionConfig,
    pub groups: GroupsConfig,
}

/// The rules that an accelerator configuration can break, in the order in
/// which they are checked.
#[derive(Debug, Clone, Copy, PartialEq, Eq, Structural)]
pub enum RedisConfigFault {
    KeyFormatEmpty,
    KeyFormatLacksExchange,
    KeyFormatLacksSymbol,
    KeyFormatLacksKind,
    PollIntervalZero,
    LatencyWindowZero,
    MaxLenZero,
}

impl RedisConfigFault {
    pub open spec fn text(self) -> Seq<char> {
        match self {
            RedisConfigFault::KeyFormatEmpty => "redis: streams.key_format must not be empty"@,
            RedisConfigFault::KeyFormatLacksExchange =>
                "redis: streams.key_format must contain {exchange}"@,
            RedisConfigFault::KeyFormatLacksSymbol =>
                "redis: streams.key_format must contain {symbol}"@,
            RedisConfigFault::KeyFormatLacksKind => "redis: streams.key_format must contain {kind}"@,
            RedisConfigFault::PollIntervalZero => "redis: capacity.poll_interval_sec must be > 0"@,
            RedisConfigFault::LatencyWindowZero =>
                "redis: capacity.redis_publish_latency_window must be > 0"@,
            RedisConfigFault::MaxLenZero => "redis: retention.maxlen must be > 0"@,
        }
    }

    fn message(self) -> (s: String)
        ensures
            s@ == self.text(),
    {
        match self {
            RedisConfigFault::KeyFormatEmpty => String::from_str(
                "redis: streams.key_format must not be empty",
            ),
            RedisConfigFault::KeyFormatLacksExchange => String::from_str(
                "redis: streams.key_format must contain {exchange}",
            ),
            RedisConfigFault::KeyFormatLacksSymbol => String::from_str(
                "redis: streams.key_format must contain {symbol}",
            ),
            RedisConfigFault::KeyFormatLacksKind => String::from_str(
                "redis: streams.key_format must contain {kind}",
            ),
            RedisConfigFault::PollIntervalZero => String::from_str(
                "redis: capacity.poll_interval_sec must be > 0",
            ),
            RedisConfigFault::LatencyWindowZero => String::from_str(
                "redis: capacity.redis_publish_latency_window must be > 0",
            ),
            RedisConfigFault::MaxLenZero => String::from_str("redis: retention.maxlen must be > 0"),
        }
    }
}

/// The first rule that the configuration breaks, if any.
pub open spec fn redis_first_fault(cfg: RedisConfig) -> Option<RedisConfigFault> {
    let fmt = cfg.streams.key_format@;
    if fmt.len() == 0 {
        Some(RedisConfigFault::KeyFormatEmpty)
    } else if !has_substring(fmt, "{exchange}"@) {
        Some(RedisConfigFault::KeyFormatLacksExchange)
    } else if !has_substring(fmt, "{symbol}"@) {
        Some(RedisConfigFault::KeyFormatLacksSymbol)
    } else if !has_substring(fmt, "{kind}"@) {
        Some(RedisConfigFault::KeyFormatLacksKind)
    } else if cfg.capacity.poll_interval_sec == 0 {
        Some(RedisConfigFault::PollIntervalZero)
    } else if cfg.capacity.redis_publish_latency_window == 0 {
        Some(RedisConfigFault::LatencyWindowZero)
    } else if cfg.retention.maxlen == 0 {
        Some(RedisConfigFault::MaxLenZero)
    } else {
        None
    }
}

impl RedisConfig {
    /// Checks the configuration: the key format names the exchange, the
    /// symbol and the kind; the poll interval, the latency window and the
    /// retention length are positive. The first broken rule is reported.
    pub fn validate(&self) -> (r: AppResult<()>)
        ensures
            match redis_first_fault(*self) {
                None => r is Ok,
                Some(f) => r matches Err(AppError::InvalidConfig(m)) && m@ == f.text(),
            },
    {
        let fmt = to_chars(self.streams.key_format.as_str());
        if fmt.len() == 0 {
            return Err(AppError::InvalidConfig(RedisConfigFault::KeyFormatEmpty.message()));
        }
        if !contains_sub(&fmt, &to_chars("{exchange}")) {
            return Err(AppError::InvalidConfig(RedisConfigFault::KeyFormatLacksExchange.message()));
        }
        if !contains_sub(&fmt, &to_chars("{symbol}")) {
            return Err(AppError::InvalidConfig(RedisConfigFault::KeyFormatLacksSymbol.message()));
        }
        if !contains_sub(&fmt, &to_chars("{kind}")) {
            return Err(AppError::InvalidConfig(RedisConfigFault::KeyFormatLacksKind.message()));
        }
        if self.capacity.poll_interval_sec == 0 {
            return Err(AppError::InvalidConfig(RedisConfigFault::PollIntervalZero.message()));
        }
        if self.capacity.redis_publish_latency_window == 0 {
            return Err(AppError::InvalidConfig(RedisConfigFault::LatencyWindowZero.message()));
        }
        if self.retention.maxlen == 0 {
            return Err(AppError::InvalidConfig(RedisConfigFault::MaxLenZero.message()));
        }
        Ok(())
    }
}

} // verus!

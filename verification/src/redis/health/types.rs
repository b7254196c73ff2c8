//! What is measured of the accelerator, and what is concluded from it.
//!
//! Milliseconds and percents are fixed-point numbers with three decimals:
//! a value of 12500 stands for 12.5.

use vstd::prelude::*;

verus! {

/// Why the accelerator was, or should be, disabled.
#[derive(Debug, Clone, Copy, PartialEq, Eq, Hash, Structural)]
pub enum DisableReason {
    Down,
    MaxMemory,
    MaxPending,
    Latency,
    Manual,
    Saturated,
}

impl DisableReason {
    /// The reason's label in metrics and logs.
    pub open spec fn label(self) -> Seq<char> {
        match self {
            DisableReason::Down => "down"@,
            DisableReason::MaxMemory => "max_memory"@,
            DisableReason::MaxPending => "max_pending"@,
            DisableReason::Latency => "latency"@,
            DisableReason::Manual => "manual"@,
            DisableReason::Saturated => "saturated"@,
        }
    }

    pub fn as_str(&self) -> (s: &'static str)
        ensures
            s@ == self.label(),
    {
        match self {
            DisableReason::Down => "down",
            DisableReason::MaxMemory => "max_memory",
            DisableReason::MaxPending => "max_pending",
            DisableReason::Latency => "latency",
            DisableReason::Manual => "manual",
            DisableReason::Saturated => "saturated",
        }
    }
}

/// Raw measurements at a point in time. `None` means unknown.
#[derive(Debug, Clone, Copy, PartialEq, Eq, Structural)]
pub struct RedisSnapshot {
    /// When the poll began: milliseconds since the Unix epoch.
    pub ts: u64,
    /// Whether the ping succeeded.
    pub is_up: bool,
    /// Round trip of the ping, in milliseconds with three decimals.
    pub ping_rtt_ms: Option<u64>,
    pub used_memory_bytes: Option<u64>,
    /// `None` where no ceiling is configured or known.
    pub maxmemory_bytes: Option<u64>,
    /// Used memory as a percent of the ceiling, with three decimals.
    pub used_memory_pct: Option<u64>,
    /// The backlog estimate.
    pub pending_total: Option<u64>,
    /// Rolling p99 of the publish latency, in milliseconds with three decimals.
    pub p99_cmd_ms: Option<u64>,
}

impl RedisSnapshot {
    /// The snapshot of an accelerator that does not answer: everything is unknown.
    pub open spec fn down_at(ts: u64) -> RedisSnapshot {
        RedisSnapshot {
            ts,
            is_up: false,
            ping_rtt_ms: None,
            used_memory_bytes: None,
            maxmemory_bytes: None,
            used_memory_pct: None,
            pending_total: None,
            p99_cmd_ms: None,
        }
    }

    pub fn down_now(ts: u64) -> (r: RedisSnapshot)
        ensures
            r == RedisSnapshot::down_at(ts),
    {
        RedisSnapshot {
            ts,
            is_up: false,
            ping_rtt_ms: None,
            used_memory_bytes: None,
            maxmemory_bytes: None,
            used_memory_pct: None,
            pending_total: None,
            p99_cmd_ms: None,
        }
    }
}

/// The evaluated health: whether the accelerator is safe to use right now.
#[derive(Debug, Clone, Copy, PartialEq, Eq, Structural)]
pub struct HealthStatus {
    pub ok: bool,
    pub reason: Option<DisableReason>,
    pub snapshot: RedisSnapshot,
}

impl HealthStatus {
    pub fn healthy(snapshot: RedisSnapshot) -> (r: HealthStatus)
        ensures
            r == (HealthStatus { ok: true, reason: None, snapshot }),
    {
        HealthStatus { ok: true, reason: None, snapshot }
    }

    pub fn unhealthy(reason: DisableReason, snapshot: RedisSnapshot) -> (r: HealthStatus)
        ensures
            r == (HealthStatus { ok: false, reason: Some(reason), snapshot }),
    {
        HealthStatus { ok: false, reason: Some(reason), snapshot }
    }
}

} // verus!

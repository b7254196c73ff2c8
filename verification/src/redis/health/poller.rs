//! From the answers of the probes to a snapshot. The poller measures; it
//! does not judge.

use crate::redis::config::CapacityConfig;
use crate::redis::health::types::RedisSnapshot;
use vstd::prelude::*;

verus! {

/// What the memory probe reports.
#[derive(Debug, Clone, Copy, PartialEq, Eq, Structural)]
pub struct MemoryInfo {
    pub used_bytes: u64,
    /// `None` where no ceiling is configured.
    pub max_bytes: Option<u64>,
    /// Used memory as a percent of the ceiling, with three decimals; `None`
    /// where no ceiling is configured.
    pub used_pct: Option<u64>,
}

/// The snapshot that the answers of one poll give. A failed ping (`ping_rtt_ms`
/// is `None`) means down, and then memory and backlog are unknown whatever
/// was reported for them. `p99_cmd_ms` comes from the latency tracker and is
/// handed through.
pub open spec fn snapshot_of(
    ts: u64,
    ping_rtt_ms: Option<u64>,
    memory: Option<MemoryInfo>,
    pending: Option<u64>,
    p99_cmd_ms: Option<u64>,
) -> RedisSnapshot {
    if ping_rtt_ms is None {
        RedisSnapshot {
            ts,
            is_up: false,
            ping_rtt_ms: None,
            used_memory_bytes: None,
            maxmemory_bytes: None,
            used_memory_pct: None,
            pending_total: None,
            p99_cmd_ms,
        }
    } else {
        RedisSnapshot {
            ts,
            is_up: true,
            ping_rtt_ms,
            used_memory_bytes: match memory {
                Some(m) => Some(m.used_bytes),
                None => None,
            },
            maxmemory_bytes: match memory {
                Some(m) => m.max_bytes,
                None => None,
            },
            used_memory_pct: match memory {
                Some(m) => m.used_pct,
                None => None,
            },
            pending_total: pending,
            p99_cmd_ms,
        }
    }
}

#[derive(Debug, Clone, Copy, PartialEq, Eq, Structural)]
pub struct HealthPoller {
    poll_interval_sec: u64,
}

impl HealthPoller {
    /// Seconds between two polls.
    pub closed spec fn interval(&self) -> u64 {
        self.poll_interval_sec
    }

    pub fn from_config(cap: &CapacityConfig) -> (r: HealthPoller)
        ensures
            r.interval() == cap.poll_interval_sec,
    {
        HealthPoller { poll_interval_sec: cap.poll_interval_sec }
    }

    /// Seconds between two polls.
    pub fn poll_interval(&self) -> (r: u64)
        ensures
            r == self.interval(),
    {
        self.poll_interval_sec
    }

    /// Whether the memory and backlog probes are to be asked after the
    /// ping: only where it succeeded.
    pub fn wants_details(&self, ping_rtt_ms: Option<u64>) -> (r: bool)
        ensures
            r == ping_rtt_ms is Some,
    {
        ping_rtt_ms.is_some()
    }

    /// Puts the answers of one poll together. A probe that failed is
    /// handed in as `None`.
    pub fn poll_once(
        &self,
        ts: u64,
        ping_rtt_ms: Option<u64>,
        memory: Option<MemoryInfo>,
        pending: Option<u64>,
        p99_cmd_ms: Option<u64>,
    ) -> (s: RedisSnapshot)
        ensures
            s == snapshot_of(ts, ping_rtt_ms, memory, pending, p99_cmd_ms),
    {
        if ping_rtt_ms.is_none() {
            return RedisSnapshot {
                ts,
                is_up: false,
                ping_rtt_ms: None,
                used_memory_bytes: None,
                maxmemory_bytes: None,
                used_memory_pct: None,
                pending_total: None,
                p99_cmd_ms,
            };
        }
        let (used_memory_bytes, maxmemory_bytes, used_memory_pct) = match memory {
            Some(m) => (Some(m.used_bytes), m.max_bytes, m.used_pct),
            None => (None, None, None),
        };
        RedisSnapshot {
            ts,
            is_up: true,
            ping_rtt_ms,
            used_memory_bytes,
            maxmemory_bytes,
            used_memory_pct,
            pending_total: pending,
            p99_cmd_ms,
        }
    }
}

} // verus!

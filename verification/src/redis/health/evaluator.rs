//! From a snapshot to a verdict.

use crate::redis::config::CapacityConfig;
use crate::redis::health::types::{DisableReason, HealthStatus, RedisSnapshot};
use vstd::prelude::*;

verus! {

/// The first rule that a snapshot trips, in the order of precedence: down,
/// memory above its threshold, backlog above its threshold, p99 above its
/// threshold. An unknown measurement trips no rule.
pub open spec fn verdict(cap: CapacityConfig, s: RedisSnapshot) -> Option<DisableReason> {
    if !s.is_up {
        Some(DisableReason::Down)
    } else if s.used_memory_pct matches Some(pct) && pct > cap.max_memory_pct * 1000 {
        Some(DisableReason::MaxMemory)
    } else if s.pending_total matches Some(pending) && pending > cap.max_pending {
        Some(DisableReason::MaxPending)
    } else if s.p99_cmd_ms matches Some(p99) && p99 > cap.max_p99_cmd_ms * 1000 {
        Some(DisableReason::Latency)
    } else {
        None
    }
}

#[derive(Debug, Clone, Copy, PartialEq, Eq, Structural)]
pub struct HealthEvaluator {
    cap: CapacityConfig,
}

/// Whether a fixed-point value with three decimals lies above a whole threshold.
fn above(value: u64, threshold: u64) -> (r: bool)
    ensures
        r == (value > threshold * 1000),
{
    value / 1000 > threshold || (value / 1000 == threshold && value % 1000 > 0)
}

impl HealthEvaluator {
    /// The thresholds that this evaluator holds a snapshot against.
    pub closed spec fn thresholds(&self) -> CapacityConfig {
        self.cap
    }

    pub fn new(cap: CapacityConfig) -> (r: HealthEvaluator)
        ensures
            r.thresholds() == cap,
    {
        HealthEvaluator { cap }
    }

    /// Decides whether the accelerator is safe to use: healthy where no
    /// rule is tripped, else unhealthy for the first rule that is.
    pub fn evaluate(&self, snapshot: RedisSnapshot) -> (h: HealthStatus)
        ensures
            h.snapshot == snapshot,
            h.reason == verdict(self.thresholds(), snapshot),
            h.ok == (verdict(self.thresholds(), snapshot) is None),
    {
        if !snapshot.is_up {
            return HealthStatus::unhealthy(DisableReason::Down, snapshot);
        }
        if let Some(pct) = snapshot.used_memory_pct {
            if above(pct, self.cap.max_memory_pct) {
                return HealthStatus::unhealthy(DisableReason::MaxMemory, snapshot);
            }
        }
        if let Some(pending) = snapshot.pending_total {
            if pending > self.cap.max_pending {
                return HealthStatus::unhealthy(DisableReason::MaxPending, snapshot);
            }
        }
        if let Some(p99) = snapshot.p99_cmd_ms {
            if above(p99, self.cap.max_p99_cmd_ms) {
                return HealthStatus::unhealthy(DisableReason::Latency, snapshot);
            }
        }
        HealthStatus::healthy(snapshot)
    }
}

} // verus!

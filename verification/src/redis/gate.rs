//! The accelerator gate that turns the use of the accelerator on and off.
//!
//! The accelerator is optional; the primary store is the source of truth.
//! The accelerator gate answers two questions: may rows be published now, and may new
//! symbols be taken on.

use crate::redis::config::{DownPolicy, FailoverConfig, SaturationPolicy};
use crate::redis::health::types::{DisableReason, HealthStatus};
use crate::redis::metrics::RedisMetrics;
use vstd::prelude::*;

verus! {

/// The accelerator gate's flags.
#[derive(Debug, Clone, Copy, PartialEq, Eq, Structural)]
pub struct GateState {
    pub enabled: bool,
    pub stop_assigning_new: bool,
    pub last_disable: Option<DisableReason>,
}

impl GateState {
    /// Publishing allowed, new symbols allowed, no reason on record.
    pub open spec fn open() -> GateState {
        GateState { enabled: true, stop_assigning_new: false, last_disable: None }
    }

    /// Publishing off and new symbols off, for `reason`.
    pub open spec fn shut(reason: DisableReason) -> GateState {
        GateState { enabled: false, stop_assigning_new: true, last_disable: Some(reason) }
    }

    /// New symbols off; the rest as it was.
    pub open spec fn saturated(self) -> GateState {
        GateState { stop_assigning_new: true, ..self }
    }

    pub open spec fn may_publish(self) -> bool {
        self.enabled
    }

    pub open spec fn may_assign_new(self) -> bool {
        self.enabled && !self.stop_assigning_new
    }
}

/// Whether a reason shuts the accelerator gate: the accelerator is down, too slow, or
/// switched off by hand.
pub open spec fn shuts(reason: DisableReason) -> bool {
    reason == DisableReason::Down || reason == DisableReason::Latency || reason
        == DisableReason::Manual
}

/// The reason that an unhealthy status is acted on: its own, or down where
/// it names none.
pub open spec fn acted_reason(status: HealthStatus) -> DisableReason {
    match status.reason {
        Some(r) => r,
        None => DisableReason::Down,
    }
}

/// The flags after a status was applied: a healthy one opens the accelerator gate; a
/// reason that shuts closes it; memory, backlog and saturation stop new
/// symbols and leave publishing as it was.
pub open spec fn state_after(state: GateState, status: HealthStatus) -> GateState {
    if status.ok {
        GateState::open()
    } else if shuts(acted_reason(status)) {
        GateState::shut(acted_reason(status))
    } else {
        state.saturated()
    }
}

/// The metrics after a status was applied.
pub open spec fn metrics_after(metrics: RedisMetrics, status: HealthStatus) -> RedisMetrics {
    if status.ok {
        metrics.with_enabled(true)
    } else if shuts(acted_reason(status)) {
        metrics.disabled(acted_reason(status))
    } else {
        metrics.noted(acted_reason(status))
    }
}

/// Whatever the accelerator gate's state, an unhealthy status that reports down,
/// latency or a manual stop, or names no reason, leaves publishing off.
pub proof fn lemma_unsafe_status_stops_publishing(state: GateState, status: HealthStatus)
    requires
        !status.ok,
        status.reason is None || shuts(status.reason->0),
    ensures
        !state_after(state, status).may_publish(),
        !state_after(state, status).may_assign_new(),
{
}

/// Saturation keeps publishing as it was and stops new symbols; a healthy
/// status afterwards allows both again.
pub proof fn lemma_saturation_then_recovery(
    state: GateState,
    sick: HealthStatus,
    well: HealthStatus,
)
    requires
        !sick.ok,
        sick.reason is Some && !shuts(sick.reason->0),
        well.ok,
    ensures
        state_after(state, sick).may_publish() == state.may_publish(),
        !state_after(state, sick).may_assign_new(),
        state_after(state_after(state, sick), well).may_publish(),
        state_after(state_after(state, sick), well).may_assign_new(),
{
}

#[derive(Debug, Clone, Copy, PartialEq, Eq, Structural)]
pub struct RedisGate {
    state: GateState,
    failover: FailoverConfig,
    metrics: RedisMetrics,
}

impl RedisGate {
    /// The accelerator gate's flags.
    pub closed spec fn state(&self) -> GateState {
        self.state
    }

    /// The failover policies that the accelerator gate was made with.
    pub closed spec fn policies(&self) -> FailoverConfig {
        self.failover
    }

    /// What the accelerator gate has counted.
    pub closed spec fn counters(&self) -> RedisMetrics {
        self.metrics
    }

    /// An open gate.
    pub fn new(failover: FailoverConfig, metrics: RedisMetrics) -> (g: RedisGate)
        ensures
            g.state() == GateState::open(),
            g.policies() == failover,
            g.counters() == metrics.with_enabled(true),
    {
        let mut metrics = metrics;
        metrics.set_enabled_state(true);
        RedisGate {
            state: GateState { enabled: true, stop_assigning_new: false, last_disable: None },
            failover,
            metrics,
        }
    }

    /// Manual override: shuts the accelerator gate.
    pub fn disable_manual(&mut self)
        ensures
            final(self).state() == GateState::shut(DisableReason::Manual),
            final(self).counters() == old(self).counters().disabled(DisableReason::Manual),
            final(self).policies() == old(self).policies(),
    {
        self.set_disabled(Some(DisableReason::Manual));
    }

    /// Manual override: opens the accelerator gate. The next unhealthy status shuts it again.
    pub fn enable_manual(&mut self)
        ensures
            final(self).state() == GateState::open(),
            final(self).counters() == old(self).counters().with_enabled(true),
            final(self).policies() == old(self).policies(),
    {
        self.state = GateState { enabled: true, stop_assigning_new: false, last_disable: None };
        self.metrics.set_enabled_state(true);
    }

    /// Whether rows may be published to the accelerator now.
    pub fn can_publish(&self) -> (r: bool)
        ensures
            r == self.state().may_publish(),
    {
        self.state.enabled
    }

    /// Whether a new symbol may be taken on now.
    pub fn can_assign_new_symbol(&self) -> (r: bool)
        ensures
            r == self.state().may_assign_new(),
    {
        self.state.enabled && !self.state.stop_assigning_new
    }

    /// The reason for which the accelerator gate was last shut, if it is on record.
    pub fn last_disable_reason(&self) -> (r: Option<DisableReason>)
        ensures
            r == self.state().last_disable,
    {
        self.state.last_disable
    }

    /// A copy of what the accelerator gate has counted.
    pub fn metrics(&self) -> (m: RedisMetrics)
        ensures
            m == self.counters(),
    {
        self.metrics
    }

    /// Applies an evaluated status.
    ///
    /// A healthy status opens the accelerator gate and clears the stop on new symbols.
    /// Down, latency, a manual stop, and an unhealthy status without a
    /// reason shut the accelerator gate: publishing is off when this returns. Memory,
    /// backlog and saturation stop new symbols under every saturation
    /// policy and leave publishing as it was.
    pub fn apply_health(&mut self, status: &HealthStatus)
        ensures
            final(self).state() == state_after(old(self).state(), *status),
            final(self).counters() == metrics_after(old(self).counters(), *status),
            final(self).policies() == old(self).policies(),
            !status.ok && (status.reason is None || shuts(status.reason->0))
                ==> !final(self).state().may_publish(),
    {
        if status.ok {
            self.state = GateState { enabled: true, stop_assigning_new: false, last_disable: None };
            self.metrics.set_enabled_state(true);
            return ;
        }
        match status.reason {
            Some(DisableReason::Down) => {
                match self.failover.on_down {
                    DownPolicy::DisableRedisTemporarily => {
                        self.set_disabled(Some(DisableReason::Down));
                    },
                    DownPolicy::PauseAndRetry => {
                        self.set_disabled(Some(DisableReason::Down));
                    },
                }
            },
            Some(DisableReason::MaxMemory) => {
                self.apply_saturation(DisableReason::MaxMemory);
            },
            Some(DisableReason::MaxPending) => {
                self.apply_saturation(DisableReason::MaxPending);
            },
            Some(DisableReason::Latency) => {
                self.set_disabled(Some(DisableReason::Latency));
            },
            Some(DisableReason::Saturated) => {
                self.apply_saturation(DisableReason::Saturated);
            },
            Some(DisableReason::Manual) => {
                self.set_disabled(Some(DisableReason::Manual));
            },
            None => {
                self.set_disabled(Some(DisableReason::Down));
            },
        }
    }

    fn apply_saturation(&mut self, reason: DisableReason)
        ensures
            final(self).state == old(self).state.saturated(),
            final(self).metrics == old(self).metrics.noted(reason),
            final(self).failover == old(self).failover,
    {
        match self.failover.on_saturated {
            SaturationPolicy::StopAssigningNew => {
                self.state.stop_assigning_new = true;
                self.metrics.note_disable_event(reason);
            },
            SaturationPolicy::ErrorNew => {
                self.state.stop_assigning_new = true;
                self.metrics.note_disable_event(reason);
            },
            SaturationPolicy::SpilloverToOtherNode => {
                self.state.stop_assigning_new = true;
                self.metrics.note_disable_event(reason);
            },
        }
    }

    fn set_disabled(&mut self, reason: Option<DisableReason>)
        ensures
            final(self).state == (GateState {
                enabled: false,
                stop_assigning_new: true,
                last_disable: reason,
            }),
            final(self).metrics == old(self).metrics.disabled(
                match reason {
                    Some(r) => r,
                    None => DisableReason::Down,
                },
            ),
            final(self).failover == old(self).failover,
    {
        self.state.enabled = false;
        self.state.stop_assigning_new = true;
        self.state.last_disable = reason;
        match reason {
            Some(r) => {
                self.metrics.disable_with_reason(r);
            },
            None => {
                self.metrics.disable_with_reason(DisableReason::Down);
            },
        }
    }
}

} // verus!

//! What the accelerator path counts. Latencies are in microseconds.

use crate::counter::{bump, sat_add, Summary};
use crate::error::{AppError, AppResult};
use crate::exposition::{
    counter_view,
    encode_samples,
    exposition_text,
    gauge_view,
    labelled_view,
    push_counter,
    push_gauge,
    push_labelled,
    push_summary,
    sample_views,
    summary_views,
    Sample,
};
use crate::redis::health::types::DisableReason;
use vstd::prelude::*;

verus! {

/// How often the accelerator was disabled or marked saturated, by reason.
#[derive(Debug, Clone, Copy, PartialEq, Eq, Structural)]
pub struct DisableCounts {
    pub down: u64,
    pub max_memory: u64,
    pub max_pending: u64,
    pub latency: u64,
    pub manual: u64,
    pub saturated: u64,
}

impl DisableCounts {
    pub open spec fn zero() -> DisableCounts {
        DisableCounts { down: 0, max_memory: 0, max_pending: 0, latency: 0, manual: 0, saturated: 0 }
    }

    /// The count for one reason.
    pub open spec fn of(self, reason: DisableReason) -> u64 {
        match reason {
            DisableReason::Down => self.down,
            DisableReason::MaxMemory => self.max_memory,
            DisableReason::MaxPending => self.max_pending,
            DisableReason::Latency => self.latency,
            DisableReason::Manual => self.manual,
            DisableReason::Saturated => self.saturated,
        }
    }

    /// The counts after one more event for `reason`.
    pub open spec fn counted(self, reason: DisableReason) -> DisableCounts {
        match reason {
            DisableReason::Down => DisableCounts { down: sat_add(self.down, 1), ..self },
            DisableReason::MaxMemory => DisableCounts {
                max_memory: sat_add(self.max_memory, 1),
                ..self
            },
            DisableReason::MaxPending => DisableCounts {
                max_pending: sat_add(self.max_pending, 1),
                ..self
            },
            DisableReason::Latency => DisableCounts { latency: sat_add(self.latency, 1), ..self },
            DisableReason::Manual => DisableCounts { manual: sat_add(self.manual, 1), ..self },
            DisableReason::Saturated => DisableCounts {
                saturated: sat_add(self.saturated, 1),
                ..self
            },
        }
    }

    fn count(&mut self, reason: DisableReason)
        ensures
            *final(self) == old(self).counted(reason),
    {
        match reason {
            DisableReason::Down => {
                self.down = bump(self.down, 1);
            },
            DisableReason::MaxMemory => {
                self.max_memory = bump(self.max_memory, 1);
            },
            DisableReason::MaxPending => {
                self.max_pending = bump(self.max_pending, 1);
            },
            DisableReason::Latency => {
                self.latency = bump(self.latency, 1);
            },
            DisableReason::Manual => {
                self.manual = bump(self.manual, 1);
            },
            DisableReason::Saturated => {
                self.saturated = bump(self.saturated, 1);
            },
        }
    }
}

#[derive(Debug, Clone, Copy, PartialEq, Eq, Structural)]
pub struct RedisMetrics {
    pub published_total: u64,
    pub publish_latency: Summary,
    pub publish_failures_total: u64,
    pub publish_queue_depth: i64,
    /// 1 while the accelerator is in use, 0 while it is disabled.
    pub enabled_state: i64,
    pub disable_events_total: DisableCounts,
}

impl RedisMetrics {
    /// Nothing counted yet, and the accelerator in use.
    pub open spec fn fresh() -> RedisMetrics {
        RedisMetrics {
            published_total: 0,
            publish_latency: Summary::zero(),
            publish_failures_total: 0,
            publish_queue_depth: 0,
            enabled_state: 1,
            disable_events_total: DisableCounts::zero(),
        }
    }

    /// The metrics after the accelerator was disabled for `reason`.
    pub open spec fn disabled(self, reason: DisableReason) -> RedisMetrics {
        RedisMetrics {
            enabled_state: 0,
            disable_events_total: self.disable_events_total.counted(reason),
            ..self
        }
    }

    /// The metrics after one event for `reason` that left the state as it was.
    pub open spec fn noted(self, reason: DisableReason) -> RedisMetrics {
        RedisMetrics { disable_events_total: self.disable_events_total.counted(reason), ..self }
    }

    /// The metrics with the enabled state set.
    pub open spec fn with_enabled(self, enabled: bool) -> RedisMetrics {
        RedisMetrics {
            enabled_state: if enabled {
                1
            } else {
                0
            },
            ..self
        }
    }

    pub fn new() -> (r: AppResult<RedisMetrics>)
        ensures
            r matches Ok(m) && m == RedisMetrics::fresh(),
    {
        Ok(
            RedisMetrics {
                published_total: 0,
                publish_latency: Summary::new(),
                publish_failures_total: 0,
                publish_queue_depth: 0,
                enabled_state: 1,
                disable_events_total: DisableCounts {
                    down: 0,
                    max_memory: 0,
                    max_pending: 0,
                    latency: 0,
                    manual: 0,
                    saturated: 0,
                },
            },
        )
    }

    /// The samples that expose these counters, in the order of their
    /// registration. The disable events are one counter per reason, told
    /// apart by the label `reason`.
    pub open spec fn samples(self) -> Seq<(Seq<char>, Seq<char>, Seq<char>, Seq<char>, bool, int)> {
        (Seq::empty().push(
            counter_view(
                "redis_stream_published_total"@,
                "Redis stream messages published total"@,
                self.published_total,
            ),
        ) + summary_views(
            "redis_publish_latency_microseconds"@,
            "Redis publish latency"@,
            self.publish_latency,
        )).push(
            counter_view(
                "redis_publish_failures_total"@,
                "Redis publish failures total"@,
                self.publish_failures_total,
            ),
        ).push(
            gauge_view(
                "redis_publish_queue_depth"@,
                "Approx publish queue depth (application-side)"@,
                self.publish_queue_depth,
            ),
        ).push(
            gauge_view(
                "redis_enabled_state"@,
                "Whether Redis is currently used by the app (1=yes, 0=no)"@,
                self.enabled_state,
            ),
        ).push(RedisMetrics::disable_events("down"@, self.disable_events_total.down)).push(
            RedisMetrics::disable_events("max_memory"@, self.disable_events_total.max_memory),
        ).push(
            RedisMetrics::disable_events("max_pending"@, self.disable_events_total.max_pending),
        ).push(RedisMetrics::disable_events("latency"@, self.disable_events_total.latency)).push(
            RedisMetrics::disable_events("manual"@, self.disable_events_total.manual),
        ).push(RedisMetrics::disable_events("saturated"@, self.disable_events_total.saturated))
    }

    /// The counter of the disable events for one reason.
    pub open spec fn disable_events(reason: Seq<char>, count: u64) -> (
        Seq<char>,
        Seq<char>,
        Seq<char>,
        Seq<char>,
        bool,
        int,
    ) {
        labelled_view(
            "redis_disable_events_total"@,
            "Number of times Redis was disabled by the app, labeled by reason"@,
            "reason"@,
            reason,
            count,
        )
    }

    fn push_disable_events(out: &mut Vec<Sample>, reason: DisableReason, count: u64)
        ensures
            sample_views(final(out)@) == sample_views(old(out)@).push(
                RedisMetrics::disable_events(reason.label(), count),
            ),
    {
        push_labelled(
            out,
            "redis_disable_events_total",
            "Number of times Redis was disabled by the app, labeled by reason",
            "reason",
            reason.as_str(),
            count,
        );
    }

    /// The counters in the Prometheus text format: the text that the
    /// registry writes for `samples`. Fails with the registry's words where
    /// it refuses a sample or cannot write.
    pub fn encode_text(&self) -> (r: AppResult<String>)
        ensures
            r matches Ok(text) ==> text@ == exposition_text(self.samples().to_multiset()),
            r matches Err(e) ==> e is Prometheus,
    {
        let mut out: Vec<Sample> = Vec::new();
        assert(sample_views(out@) =~= Seq::empty());
        push_counter(
            &mut out,
            "redis_stream_published_total",
            "Redis stream messages published total",
            self.published_total,
        );
        push_summary(
            &mut out,
            "redis_publish_latency_microseconds",
            "Redis publish latency",
            &self.publish_latency,
        );
        push_counter(
            &mut out,
            "redis_publish_failures_total",
            "Redis publish failures total",
            self.publish_failures_total,
        );
        push_gauge(
            &mut out,
            "redis_publish_queue_depth",
            "Approx publish queue depth (application-side)",
            self.publish_queue_depth,
        );
        push_gauge(
            &mut out,
            "redis_enabled_state",
            "Whether Redis is currently used by the app (1=yes, 0=no)",
            self.enabled_state,
        );
        let counts = self.disable_events_total;
        RedisMetrics::push_disable_events(&mut out, DisableReason::Down, counts.down);
        RedisMetrics::push_disable_events(&mut out, DisableReason::MaxMemory, counts.max_memory);
        RedisMetrics::push_disable_events(&mut out, DisableReason::MaxPending, counts.max_pending);
        RedisMetrics::push_disable_events(&mut out, DisableReason::Latency, counts.latency);
        RedisMetrics::push_disable_events(&mut out, DisableReason::Manual, counts.manual);
        RedisMetrics::push_disable_events(&mut out, DisableReason::Saturated, counts.saturated);
        encode_samples(&out)
    }

    pub fn inc_published(&mut self, n: u64)
        ensures
            *final(self) == (RedisMetrics {
                published_total: sat_add(old(self).published_total, n),
                ..*old(self)
            }),
    {
        self.published_total = bump(self.published_total, n);
    }

    pub fn observe_publish_latency(&mut self, micros: u64)
        ensures
            *final(self) == (RedisMetrics {
                publish_latency: old(self).publish_latency.with(micros),
                ..*old(self)
            }),
    {
        self.publish_latency.observe(micros);
    }

    pub fn inc_publish_failure(&mut self)
        ensures
            *final(self) == (RedisMetrics {
                publish_failures_total: sat_add(old(self).publish_failures_total, 1),
                ..*old(self)
            }),
    {
        self.publish_failures_total = bump(self.publish_failures_total, 1);
    }

    pub fn set_queue_depth(&mut self, depth: i64)
        ensures
            *final(self) == (RedisMetrics { publish_queue_depth: depth, ..*old(self) }),
    {
        self.publish_queue_depth = depth;
    }

    /// Sets whether the accelerator is in use.
    pub fn set_enabled_state(&mut self, enabled: bool)
        ensures
            *final(self) == old(self).with_enabled(enabled),
    {
        self.enabled_state = if enabled {
            1
        } else {
            0
        };
    }

    /// Records that the accelerator was disabled, and why.
    pub fn disable_with_reason(&mut self, reason: DisableReason)
        ensures
            *final(self) == old(self).disabled(reason),
    {
        self.enabled_state = 0;
        self.disable_events_total.count(reason);
    }

    /// Records an event for `reason` without touching the enabled state.
    pub fn note_disable_event(&mut self, reason: DisableReason)
        ensures
            *final(self) == old(self).noted(reason),
    {
        self.disable_events_total.count(reason);
    }
}

} // verus!

//! What the ingest pipelines count. Durations are in microseconds.

use crate::counter::{bump, sat_add, Summary};
use crate::error::{AppError, AppResult};
use crate::exposition::{
    counter_view,
    encode_samples,
    exposition_text,
    gauge_view,
    push_counter,
    push_gauge,
    push_summary,
    sample_views,
    summary_views,
    Sample,
};
use vstd::prelude::*;

verus! {

#[derive(Debug, Clone, Copy, PartialEq, Eq, Structural)]
pub struct IngestMetrics {
    pub in_total: u64,
    pub processed_total: u64,
    pub acked_total: u64,
    pub errors_total: u64,
    pub retried_total: u64,
    pub duplicates_total: u64,
    pub queue_depth: i64,
    pub lag: Summary,
    pub rate_limited_total: u64,
    pub rate_limit_wait: Summary,
    pub ws_subscribe_attempts_total: u64,
    pub ws_subscribe_rate_limited_total: u64,
    pub ws_subscribe_wait: Summary,
    pub ws_reconnect_attempts_total: u64,
    pub ws_reconnect_rate_limited_total: u64,
    pub ws_reconnect_wait: Summary,
}

impl IngestMetrics {
    pub open spec fn zero() -> IngestMetrics {
        IngestMetrics {
            in_total: 0,
            processed_total: 0,
            acked_total: 0,
            errors_total: 0,
            retried_total: 0,
            duplicates_total: 0,
            queue_depth: 0,
            lag: Summary::zero(),
            rate_limited_total: 0,
            rate_limit_wait: Summary::zero(),
            ws_subscribe_attempts_total: 0,
            ws_subscribe_rate_limited_total: 0,
            ws_subscribe_wait: Summary::zero(),
            ws_reconnect_attempts_total: 0,
            ws_reconnect_rate_limited_total: 0,
            ws_reconnect_wait: Summary::zero(),
        }
    }

    /// One more message received.
    pub open spec fn received(self) -> IngestMetrics {
        IngestMetrics { in_total: sat_add(self.in_total, 1), ..self }
    }

    /// One more message processed.
    pub open spec fn processed(self) -> IngestMetrics {
        IngestMetrics { processed_total: sat_add(self.processed_total, 1), ..self }
    }

    /// One more error counted.
    pub open spec fn failed(self) -> IngestMetrics {
        IngestMetrics { errors_total: sat_add(self.errors_total, 1), ..self }
    }

    /// One more subscribe performed.
    pub open spec fn subscribed(self) -> IngestMetrics {
        IngestMetrics {
            ws_subscribe_attempts_total: sat_add(self.ws_subscribe_attempts_total, 1),
            ..self
        }
    }

    /// One more connect attempt begun.
    pub open spec fn reconnecting(self) -> IngestMetrics {
        IngestMetrics {
            ws_reconnect_attempts_total: sat_add(self.ws_reconnect_attempts_total, 1),
            ..self
        }
    }

    /// A subscribe permit was granted after `waited_us`: the wait is
    /// recorded, and a wait above zero counts as one throttled attempt.
    pub open spec fn subscribe_admitted(self, waited_us: u64) -> IngestMetrics {
        IngestMetrics {
            ws_subscribe_wait: self.ws_subscribe_wait.with(waited_us),
            ws_subscribe_rate_limited_total: if waited_us > 0 {
                sat_add(self.ws_subscribe_rate_limited_total, 1)
            } else {
                self.ws_subscribe_rate_limited_total
            },
            ..self
        }
    }

    /// A reconnect permit was granted after `waited_us`: the wait is
    /// recorded, and a wait above zero counts as one throttled attempt.
    pub open spec fn reconnect_admitted(self, waited_us: u64) -> IngestMetrics {
        IngestMetrics {
            ws_reconnect_wait: self.ws_reconnect_wait.with(waited_us),
            ws_reconnect_rate_limited_total: if waited_us > 0 {
                sat_add(self.ws_reconnect_rate_limited_total, 1)
            } else {
                self.ws_reconnect_rate_limited_total
            },
            ..self
        }
    }

    pub fn new() -> (r: AppResult<IngestMetrics>)
        ensures
            r matches Ok(m) && m == IngestMetrics::zero(),
    {
        Ok(
            IngestMetrics {
                in_total: 0,
                processed_total: 0,
                acked_total: 0,
                errors_total: 0,
                retried_total: 0,
                duplicates_total: 0,
                queue_depth: 0,
                lag: Summary::new(),
                rate_limited_total: 0,
                rate_limit_wait: Summary::new(),
                ws_subscribe_attempts_total: 0,
                ws_subscribe_rate_limited_total: 0,
                ws_subscribe_wait: Summary::new(),
                ws_reconnect_attempts_total: 0,
                ws_reconnect_rate_limited_total: 0,
                ws_reconnect_wait: Summary::new(),
            },
        )
    }

    pub fn inc_in(&mut self)
        ensures
            *final(self) == old(self).received(),
    {
        self.in_total = bump(self.in_total, 1);
    }

    pub fn inc_processed(&mut self)
        ensures
            *final(self) == old(self).processed(),
    {
        self.processed_total = bump(self.processed_total, 1);
    }

    pub fn inc_acked(&mut self)
        ensures
            *final(self) == (IngestMetrics {
                acked_total: sat_add(old(self).acked_total, 1),
                ..*old(self)
            }),
    {
        self.acked_total = bump(self.acked_total, 1);
    }

    pub fn inc_error(&mut self)
        ensures
            *final(self) == old(self).failed(),
    {
        self.errors_total = bump(self.errors_total, 1);
    }

    pub fn inc_retried(&mut self)
        ensures
            *final(self) == (IngestMetrics {
                retried_total: sat_add(old(self).retried_total, 1),
                ..*old(self)
            }),
    {
        self.retried_total = bump(self.retried_total, 1);
    }

    pub fn inc_duplicate(&mut self)
        ensures
            *final(self) == (IngestMetrics {
                duplicates_total: sat_add(old(self).duplicates_total, 1),
                ..*old(self)
            }),
    {
        self.duplicates_total = bump(self.duplicates_total, 1);
    }

    pub fn set_queue_depth(&mut self, depth: i64)
        ensures
            *final(self) == (IngestMetrics { queue_depth: depth, ..*old(self) }),
    {
        self.queue_depth = depth;
    }

    pub fn observe_lag(&mut self, micros: u64)
        ensures
            *final(self) == (IngestMetrics { lag: old(self).lag.with(micros), ..*old(self) }),
    {
        self.lag.observe(micros);
    }

    pub fn inc_rate_limited(&mut self)
        ensures
            *final(self) == (IngestMetrics {
                rate_limited_total: sat_add(old(self).rate_limited_total, 1),
                ..*old(self)
            }),
    {
        self.rate_limited_total = bump(self.rate_limited_total, 1);
    }

    pub fn observe_rate_limit_wait(&mut self, micros: u64)
        ensures
            *final(self) == (IngestMetrics {
                rate_limit_wait: old(self).rate_limit_wait.with(micros),
                ..*old(self)
            }),
    {
        self.rate_limit_wait.observe(micros);
    }

    pub fn inc_ws_subscribe_attempt(&mut self)
        ensures
            *final(self) == old(self).subscribed(),
    {
        self.ws_subscribe_attempts_total = bump(self.ws_subscribe_attempts_total, 1);
    }

    pub fn inc_ws_subscribe_rate_limited(&mut self)
        ensures
            *final(self) == (IngestMetrics {
                ws_subscribe_rate_limited_total: sat_add(
                    old(self).ws_subscribe_rate_limited_total,
                    1,
                ),
                ..*old(self)
            }),
    {
        self.ws_subscribe_rate_limited_total = bump(self.ws_subscribe_rate_limited_total, 1);
    }

    pub fn observe_ws_subscribe_wait(&mut self, micros: u64)
        ensures
            *final(self) == (IngestMetrics {
                ws_subscribe_wait: old(self).ws_subscribe_wait.with(micros),
                ..*old(self)
            }),
    {
        self.ws_subscribe_wait.observe(micros);
    }

    pub fn inc_ws_reconnect_attempt(&mut self)
        ensures
            *final(self) == old(self).reconnecting(),
    {
        self.ws_reconnect_attempts_total = bump(self.ws_reconnect_attempts_total, 1);
    }

    pub fn inc_ws_reconnect_rate_limited(&mut self)
        ensures
            *final(self) == (IngestMetrics {
                ws_reconnect_rate_limited_total: sat_add(
                    old(self).ws_reconnect_rate_limited_total,
                    1,
                ),
                ..*old(self)
            }),
    {
        self.ws_reconnect_rate_limited_total = bump(self.ws_reconnect_rate_limited_total, 1);
    }

    pub fn observe_ws_reconnect_wait(&mut self, micros: u64)
        ensures
            *final(self) == (IngestMetrics {
                ws_reconnect_wait: old(self).ws_reconnect_wait.with(micros),
                ..*old(self)
            }),
    {
        self.ws_reconnect_wait.observe(micros);
    }

    /// The samples that expose these counters, in the order of their
    /// registration. A duration summary is in microseconds.
    pub open spec fn samples(self) -> Seq<(Seq<char>, Seq<char>, Seq<char>, Seq<char>, bool, int)> {
        (((((Seq::empty().push(
            counter_view(
                "ingest_in_total"@,
                "Messages received from ingest source (WS/HTTP)"@,
                self.in_total,
            ),
        ).push(
            counter_view(
                "ingest_processed_total"@,
                "Messages successfully processed/normalized"@,
                self.processed_total,
            ),
        ).push(
            counter_view(
                "ingest_acked_total"@,
                "Messages acknowledged/committed (if applicable)"@,
                self.acked_total,
            ),
        ).push(
            counter_view(
                "ingest_errors_total"@,
                "Ingest errors total (transport/parse/handler)"@,
                self.errors_total,
            ),
        ).push(
            counter_view(
                "ingest_retried_total"@,
                "Retried operations total (any reason)"@,
                self.retried_total,
            ),
        ).push(
            counter_view(
                "ingest_duplicates_total"@,
                "Duplicate deliveries detected total"@,
                self.duplicates_total,
            ),
        ).push(
            gauge_view(
                "ingest_queue_depth"@,
                "Current ingest queue depth / pending items (approx)"@,
                self.queue_depth,
            ),
        )) + summary_views(
            "ingest_lag_microseconds"@,
            "End-to-end lag (now - message timestamp or enqueue time)"@,
            self.lag,
        )).push(
            counter_view(
                "ingest_rate_limited_total"@,
                "Total times we were rate limited (blocked/dropped due to limiter/429)"@,
                self.rate_limited_total,
            ),
        ) + summary_views(
            "ingest_rate_limit_wait_microseconds"@,
            "Time spent waiting for rate limiter permits"@,
            self.rate_limit_wait,
        )).push(
            counter_view(
                "ws_subscribe_attempts_total"@,
                "Total WS subscribe attempts performed"@,
                self.ws_subscribe_attempts_total,
            ),
        ).push(
            counter_view(
                "ws_subscribe_rate_limited_total"@,
                "Total times WS subscribe attempts were throttled by limiter"@,
                self.ws_subscribe_rate_limited_total,
            ),
        ) + summary_views(
            "ws_subscribe_wait_microseconds"@,
            "Time spent waiting to perform a WS subscribe attempt"@,
            self.ws_subscribe_wait,
        )).push(
            counter_view(
                "ws_reconnect_attempts_total"@,
                "Total WS reconnect attempts performed"@,
                self.ws_reconnect_attempts_total,
            ),
        ).push(
            counter_view(
                "ws_reconnect_rate_limited_total"@,
                "Total times WS reconnect attempts were throttled by limiter"@,
                self.ws_reconnect_rate_limited_total,
            ),
        ) + summary_views(
            "ws_reconnect_wait_microseconds"@,
            "Time spent waiting to perform a WS reconnect attempt"@,
            self.ws_reconnect_wait,
        ))
    }

    /// The counters in the Prometheus text format: the text that the
    /// registry writes for `samples`. Fails with the registry's words where
    /// it refuses a sample or cannot write.
    pub fn encode_text(&self) -> (r: AppResult<String>)
        ensures
            r matches Ok(text) ==> text@ == exposition_text(self.samples().to_multiset()),
            r matches Err(e) ==> e is Prometheus,
    {
        let mut out: Vec<Sample> = Vec::new();
        assert(sample_views(out@) =~= Seq::empty());
        push_counter(
            &mut out,
            "ingest_in_total",
            "Messages received from ingest source (WS/HTTP)",
            self.in_total,
        );
        push_counter(
            &mut out,
            "ingest_processed_total",
            "Messages successfully processed/normalized",
            self.processed_total,
        );
        push_counter(
            &mut out,
            "ingest_acked_total",
            "Messages acknowledged/committed (if applicable)",
            self.acked_total,
        );
        push_counter(
            &mut out,
            "ingest_errors_total",
            "Ingest errors total (transport/parse/handler)",
            self.errors_total,
        );
        push_counter(
            &mut out,
            "ingest_retried_total",
            "Retried operations total (any reason)",
            self.retried_total,
        );
        push_counter(
            &mut out,
            "ingest_duplicates_total",
            "Duplicate deliveries detected total",
            self.duplicates_total,
        );
        push_gauge(
            &mut out,
            "ingest_queue_depth",
            "Current ingest queue depth / pending items (approx)",
            self.queue_depth,
        );
        push_summary(
            &mut out,
            "ingest_lag_microseconds",
            "End-to-end lag (now - message timestamp or enqueue time)",
            &self.lag,
        );
        push_counter(
            &mut out,
            "ingest_rate_limited_total",
            "Total times we were rate limited (blocked/dropped due to limiter/429)",
            self.rate_limited_total,
        );
        push_summary(
            &mut out,
            "ingest_rate_limit_wait_microseconds",
            "Time spent waiting for rate limiter permits",
            &self.rate_limit_wait,
        );
        push_counter(
            &mut out,
            "ws_subscribe_attempts_total",
            "Total WS subscribe attempts performed",
            self.ws_subscribe_attempts_total,
        );
        push_counter(
            &mut out,
            "ws_subscribe_rate_limited_total",
            "Total times WS subscribe attempts were throttled by limiter",
            self.ws_subscribe_rate_limited_total,
        );
        push_summary(
            &mut out,
            "ws_subscribe_wait_microseconds",
            "Time spent waiting to perform a WS subscribe attempt",
            &self.ws_subscribe_wait,
        );
        push_counter(
            &mut out,
            "ws_reconnect_attempts_total",
            "Total WS reconnect attempts performed",
            self.ws_reconnect_attempts_total,
        );
        push_counter(
            &mut out,
            "ws_reconnect_rate_limited_total",
            "Total times WS reconnect attempts were throttled by limiter",
            self.ws_reconnect_rate_limited_total,
        );
        push_summary(
            &mut out,
            "ws_reconnect_wait_microseconds",
            "Time spent waiting to perform a WS reconnect attempt",
            &self.ws_reconnect_wait,
        );
        encode_samples(&out)
    }

    /// Reports the wait for a subscribe permit.
    pub fn subscribe_permit_granted(&mut self, waited_us: u64)
        ensures
            *final(self) == old(self).subscribe_admitted(waited_us),
    {
        self.observe_ws_subscribe_wait(waited_us);
        if waited_us > 0 {
            self.inc_ws_subscribe_rate_limited();
        }
    }

    /// Reports the wait for a reconnect permit.
    pub fn reconnect_permit_granted(&mut self, waited_us: u64)
        ensures
            *final(self) == old(self).reconnect_admitted(waited_us),
    {
        self.observe_ws_reconnect_wait(waited_us);
        if waited_us > 0 {
            self.inc_ws_reconnect_rate_limited();
        }
    }
}

} // verus!

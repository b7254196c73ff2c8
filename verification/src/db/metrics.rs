//! What the writer counts. Waits and write times are in microseconds; the
//! flush delay is in milliseconds, the unit of the batch clock.

use crate::counter::{bump, sat_add, Summary};
use crate::error::{AppError, AppResult};
use crate::exposition::{
    counter_view,
    encode_samples,
    exposition_text,
    gauge_view,
    push_counter,
    push_gauge,
    push_summary,
    sample_views,
    summary_views,
    Sample,
};
use vstd::prelude::*;

verus! {

#[derive(Debug, Clone, Copy, PartialEq, Eq, Structural)]
pub struct DbMetrics {
    pub batches_written: u64,
    pub rows_written: u64,
    pub failed_batch: u64,
    pub retried_batch: u64,
    /// In-flight batches: the limit less the permits still available.
    pub queue_depth: i64,
    pub pool_in_use: i64,
    pub pool_idle: i64,
    pub pool_max: i64,
    pub queue_wait: Summary,
    pub pool_wait: Summary,
    pub flush_delay: Summary,
    pub write_latency: Summary,
    pub rows_per_batch: Summary,
}

impl DbMetrics {
    pub open spec fn zero() -> DbMetrics {
        DbMetrics {
            batches_written: 0,
            rows_written: 0,
            failed_batch: 0,
            retried_batch: 0,
            queue_depth: 0,
            pool_in_use: 0,
            pool_idle: 0,
            pool_max: 0,
            queue_wait: Summary::zero(),
            pool_wait: Summary::zero(),
            flush_delay: Summary::zero(),
            write_latency: Summary::zero(),
            rows_per_batch: Summary::zero(),
        }
    }

    /// After a permit was granted: the wait, the depth, and how long the
    /// batch had been waiting since it was enqueued.
    pub open spec fn admitted(self, waited_us: u64, depth: i64, delay_ms: u64) -> DbMetrics {
        DbMetrics {
            queue_wait: self.queue_wait.with(waited_us),
            queue_depth: depth,
            flush_delay: self.flush_delay.with(delay_ms),
            ..self
        }
    }

    /// After a connection was taken from the pool.
    pub open spec fn connected(
        self,
        waited_us: u64,
        in_use: i64,
        idle: i64,
        max: i64,
    ) -> DbMetrics {
        DbMetrics {
            pool_wait: self.pool_wait.with(waited_us),
            pool_in_use: in_use,
            pool_idle: idle,
            pool_max: max,
            ..self
        }
    }

    /// After a flush that wrote `rows` rows in `write_us`.
    pub open spec fn flushed(self, rows: u64, write_us: u64) -> DbMetrics {
        DbMetrics {
            write_latency: self.write_latency.with(write_us),
            batches_written: sat_add(self.batches_written, 1),
            rows_written: sat_add(self.rows_written, rows),
            rows_per_batch: self.rows_per_batch.with(rows),
            ..self
        }
    }

    pub open spec fn failed(self) -> DbMetrics {
        DbMetrics { failed_batch: sat_add(self.failed_batch, 1), ..self }
    }

    pub open spec fn retried(self) -> DbMetrics {
        DbMetrics { retried_batch: sat_add(self.retried_batch, 1), ..self }
    }

    pub fn new() -> (r: DbMetrics)
        ensures
            r == DbMetrics::zero(),
    {
        DbMetrics {
            batches_written: 0,
            rows_written: 0,
            failed_batch: 0,
            retried_batch: 0,
            queue_depth: 0,
            pool_in_use: 0,
            pool_idle: 0,
            pool_max: 0,
            queue_wait: Summary::new(),
            pool_wait: Summary::new(),
            flush_delay: Summary::new(),
            write_latency: Summary::new(),
            rows_per_batch: Summary::new(),
        }
    }

    /// The samples that expose these counters, in the order of their
    /// registration.
    pub open spec fn samples(self) -> Seq<(Seq<char>, Seq<char>, Seq<char>, Seq<char>, bool, int)> {
        Seq::empty().push(
            counter_view("db_batches_written_total"@, "Batches written"@, self.batches_written),
        ).push(counter_view("db_rows_written_total"@, "Rows written"@, self.rows_written)).push(
            counter_view("db_failed_batch_total"@, "Flushes that failed"@, self.failed_batch),
        ).push(
            counter_view("db_retried_batch_total"@, "Flushes tried again"@, self.retried_batch),
        ).push(gauge_view("db_queue_depth"@, "Batches in flight"@, self.queue_depth)).push(
            gauge_view("db_pool_in_use"@, "Connections in use"@, self.pool_in_use),
        ).push(gauge_view("db_pool_idle"@, "Idle connections"@, self.pool_idle)).push(
            gauge_view("db_pool_max"@, "Pool ceiling"@, self.pool_max),
        ) + summary_views(
            "db_queue_wait_microseconds"@,
            "Wait for an in-flight permit"@,
            self.queue_wait,
        ) + summary_views(
            "db_pool_wait_microseconds"@,
            "Wait for a connection"@,
            self.pool_wait,
        ) + summary_views(
            "db_flush_delay_milliseconds"@,
            "Time that a batch waited since it was enqueued"@,
            self.flush_delay,
        ) + summary_views(
            "db_write_latency_microseconds"@,
            "Time spent in the inserts of a flush"@,
            self.write_latency,
        ) + summary_views("db_rows_per_batch"@, "Rows per written batch"@, self.rows_per_batch)
    }

    /// The counters in the Prometheus text format: the text that the
    /// registry writes for `samples`. Fails with the registry's words where
    /// it refuses a sample or cannot write.
    pub fn encode_text(&self) -> (r: AppResult<String>)
        ensures
            r matches Ok(text) ==> text@ == exposition_text(self.samples().to_multiset()),
            r matches Err(e) ==> e is Prometheus,
    {
        let mut out: Vec<Sample> = Vec::new();
        assert(sample_views(out@) =~= Seq::empty());
        push_counter(&mut out, "db_batches_written_total", "Batches written", self.batches_written);
        push_counter(&mut out, "db_rows_written_total", "Rows written", self.rows_written);
        push_counter(&mut out, "db_failed_batch_total", "Flushes that failed", self.failed_batch);
        push_counter(&mut out, "db_retried_batch_total", "Flushes tried again", self.retried_batch);
        push_gauge(&mut out, "db_queue_depth", "Batches in flight", self.queue_depth);
        push_gauge(&mut out, "db_pool_in_use", "Connections in use", self.pool_in_use);
        push_gauge(&mut out, "db_pool_idle", "Idle connections", self.pool_idle);
        push_gauge(&mut out, "db_pool_max", "Pool ceiling", self.pool_max);
        push_summary(
            &mut out,
            "db_queue_wait_microseconds",
            "Wait for an in-flight permit",
            &self.queue_wait,
        );
        push_summary(&mut out, "db_pool_wait_microseconds", "Wait for a connection", &self.pool_wait);
        push_summary(
            &mut out,
            "db_flush_delay_milliseconds",
            "Time that a batch waited since it was enqueued",
            &self.flush_delay,
        );
        push_summary(
            &mut out,
            "db_write_latency_microseconds",
            "Time spent in the inserts of a flush",
            &self.write_latency,
        );
        push_summary(&mut out, "db_rows_per_batch", "Rows per written batch", &self.rows_per_batch);
        encode_samples(&out)
    }

    pub fn observe_queue_wait(&mut self, micros: u64)
        ensures
            *final(self) == (DbMetrics { queue_wait: old(self).queue_wait.with(micros), ..*old(self) }),
    {
        self.queue_wait.observe(micros);
    }

    pub fn set_queue_depth(&mut self, depth: i64)
        ensures
            *final(self) == (DbMetrics { queue_depth: depth, ..*old(self) }),
    {
        self.queue_depth = depth;
    }

    pub fn observe_flush_delay(&mut self, millis: u64)
        ensures
            *final(self) == (DbMetrics {
                flush_delay: old(self).flush_delay.with(millis),
                ..*old(self)
            }),
    {
        self.flush_delay.observe(millis);
    }

    pub fn observe_pool_wait(&mut self, micros: u64)
        ensures
            *final(self) == (DbMetrics { pool_wait: old(self).pool_wait.with(micros), ..*old(self) }),
    {
        self.pool_wait.observe(micros);
    }

    pub fn set_pool_health(&mut self, in_use: i64, idle: i64, max: i64)
        ensures
            *final(self) == (DbMetrics {
                pool_in_use: in_use,
                pool_idle: idle,
                pool_max: max,
                ..*old(self)
            }),
    {
        self.pool_in_use = in_use;
        self.pool_idle = idle;
        self.pool_max = max;
    }

    pub fn observe_write_latency(&mut self, micros: u64)
        ensures
            *final(self) == (DbMetrics {
                write_latency: old(self).write_latency.with(micros),
                ..*old(self)
            }),
    {
        self.write_latency.observe(micros);
    }

    pub fn inc_batches_written(&mut self)
        ensures
            *final(self) == (DbMetrics {
                batches_written: sat_add(old(self).batches_written, 1),
                ..*old(self)
            }),
    {
        self.batches_written = bump(self.batches_written, 1);
    }

    pub fn add_rows_written(&mut self, rows: u64)
        ensures
            *final(self) == (DbMetrics {
                rows_written: sat_add(old(self).rows_written, rows),
                ..*old(self)
            }),
    {
        self.rows_written = bump(self.rows_written, rows);
    }

    pub fn observe_rows_per_batch(&mut self, rows: u64)
        ensures
            *final(self) == (DbMetrics {
                rows_per_batch: old(self).rows_per_batch.with(rows),
                ..*old(self)
            }),
    {
        self.rows_per_batch.observe(rows);
    }

    pub fn inc_failed_batch(&mut self)
        ensures
            *final(self) == old(self).failed(),
    {
        self.failed_batch = bump(self.failed_batch, 1);
    }

    pub fn inc_retried_batch(&mut self)
        ensures
            *final(self) == old(self).retried(),
    {
        self.retried_batch = bump(self.retried_batch, 1);
    }
}

} // verus!

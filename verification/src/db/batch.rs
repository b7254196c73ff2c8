//! The per-key buffer of rows that awaits a flush by size or by time.

use crate::error::{AppError, AppResult};
use crate::stream::{BatchKey, StreamKnobs};
use vstd::prelude::*;
use vstd::string::*;

verus! {

/// Rows for one `(exchange, kind, symbol)`, in the order in which they came.
/// `enqueued_at` is a reading of a monotonic clock, in milliseconds.
#[derive(Debug, Clone, PartialEq, Eq)]
pub struct Batch<T> {
    pub key: BatchKey,
    pub rows: Vec<T>,
    pub enqueued_at: u64,
    pub flush_rows: usize,
    pub flush_interval_ms: u64,
    pub chunk_rows: usize,
    pub hard_cap_rows: usize,
    pub disable_primary: bool,
    pub disable_accelerator: bool,
}

/// Milliseconds from `since` to `now`; 0 where the clock reads earlier.
pub open spec fn elapsed_ms(now: u64, since: u64) -> u64 {
    if now >= since {
        (now - since) as u64
    } else {
        0
    }
}

impl<T> Batch<T> {
    /// `0 < flush_rows <= hard_cap_rows` and `0 < chunk_rows <= flush_rows`.
    pub open spec fn wf(&self) -> bool {
        &&& 0 < self.flush_rows <= self.hard_cap_rows
        &&& 0 < self.chunk_rows <= self.flush_rows
    }

    /// The flush predicate: the batch holds rows, and it has reached its
    /// row threshold, or its interval has passed, or it is over its hard cap.
    pub open spec fn due(&self, now: u64) -> bool {
        &&& self.rows@.len() > 0
        &&& (self.rows@.len() >= self.flush_rows || elapsed_ms(now, self.enqueued_at)
            >= self.flush_interval_ms || self.rows@.len() > self.hard_cap_rows)
    }

    /// Whether the knobs and the key are those of `other`.
    pub open spec fn same_setup(&self, other: &Batch<T>) -> bool {
        &&& self.key == other.key
        &&& self.flush_rows == other.flush_rows
        &&& self.flush_interval_ms == other.flush_interval_ms
        &&& self.chunk_rows == other.chunk_rows
        &&& self.hard_cap_rows == other.hard_cap_rows
        &&& self.disable_primary == other.disable_primary
        &&& self.disable_accelerator == other.disable_accelerator
    }

    /// An empty batch with the given knobs, enqueued at `now`. Knobs that
    /// break `0 < chunk_rows <= flush_rows <= hard_cap_rows` are refused.
    pub fn new(key: BatchKey, knobs: &StreamKnobs, now: u64) -> (r: AppResult<Batch<T>>)
        ensures
            match r {
                Ok(b) => knobs.wf() && b.wf() && b.key == key && b.rows@.len() == 0
                    && b.enqueued_at == now && b.flush_rows == knobs.flush_rows
                    && b.flush_interval_ms == knobs.flush_interval_ms && b.chunk_rows
                    == knobs.chunk_rows && b.hard_cap_rows == knobs.hard_cap_rows
                    && b.disable_primary == knobs.disable_db_writes && b.disable_accelerator
                    == knobs.disable_redis_publishes,
                Err(e) => !knobs.wf() && (e matches AppError::InvalidConfig(m) && m@
                    == "batch knobs must satisfy 0 < chunk_rows <= flush_rows <= hard_cap_rows"@),
            },
    {
        if !knobs.is_valid() {
            return Err(
                AppError::InvalidConfig(
                    String::from_str(
                        "batch knobs must satisfy 0 < chunk_rows <= flush_rows <= hard_cap_rows",
                    ),
                ),
            );
        }
        Ok(
            Batch {
                key,
                rows: Vec::new(),
                enqueued_at: now,
                flush_rows: knobs.flush_rows,
                flush_interval_ms: knobs.flush_interval_ms,
                chunk_rows: knobs.chunk_rows,
                hard_cap_rows: knobs.hard_cap_rows,
                disable_primary: knobs.disable_db_writes,
                disable_accelerator: knobs.disable_redis_publishes,
            },
        )
    }

    /// Appends one row.
    pub fn push(&mut self, row: T)
        ensures
            final(self).rows@ == old(self).rows@.push(row),
            final(self).same_setup(old(self)),
            final(self).enqueued_at == old(self).enqueued_at,
    {
        self.rows.push(row);
    }

    pub fn len(&self) -> (n: usize)
        ensures
            n == self.rows@.len(),
    {
        self.rows.len()
    }

    /// Whether the batch must be written now.
    pub fn should_flush(&self, now: u64) -> (r: bool)
        ensures
            r == self.due(now),
    {
        let n = self.rows.len();
        if n == 0 {
            return false;
        }
        let elapsed: u64 = if now >= self.enqueued_at {
            now - self.enqueued_at
        } else {
            0
        };
        n >= self.flush_rows || elapsed >= self.flush_interval_ms || n > self.hard_cap_rows
    }
}

/// At exactly `flush_rows` rows a batch is due, whatever the clock says.
pub proof fn lemma_due_at_threshold<T>(b: Batch<T>, now: u64)
    requires
        b.wf(),
        b.rows@.len() == b.flush_rows,
    ensures
        b.due(now),
{
}

/// One row short of the threshold, and before the interval has passed, a
/// well-formed batch is not due.
pub proof fn lemma_not_due_below_threshold<T>(b: Batch<T>, now: u64)
    requires
        b.wf(),
        b.rows@.len() == b.flush_rows - 1,
        elapsed_ms(now, b.enqueued_at) < b.flush_interval_ms,
    ensures
        !b.due(now),
{
}

/// A batch over its hard cap is due whatever else holds.
pub proof fn lemma_due_over_hard_cap<T>(b: Batch<T>, now: u64)
    requires
        b.rows@.len() > b.hard_cap_rows,
    ensures
        b.due(now),
{
}

} // verus!

//! The batched writer, as the decisions of one flush.
//!
//! A flush alternates decisions with work that only the caller can do:
//! waiting for an in-flight permit, taking a connection, executing an
//! insert. `DbHandler::write_batch` makes the decisions: it takes what came
//! of the last step as a `WriteEvent`, beginning with `Begin`, and returns
//! the next `WriteStep`. Rows leave the batch only when every chunk was written.

use crate::counter::{bump, sat_add};
use crate::db::batch::{elapsed_ms, Batch};
use crate::db::config::WriterConfig;
use crate::db::metrics::DbMetrics;
use crate::db::router::{first_match, first_with_id, ShardRouter};
use crate::db::traits::BatchInsertRow;
use crate::error::{AppError, AppResult};
use vstd::prelude::*;
use vstd::string::*;

verus! {

#[derive(Debug, Clone, Copy, PartialEq, Eq, Structural)]
pub enum WritePhase {
    Idle,
    AwaitPermit,
    AwaitConnection,
    Inserting,
    Finished,
}

/// The state of one flush.
#[derive(Debug, Clone, PartialEq, Eq)]
pub struct WriteRun {
    pub phase: WritePhase,
    /// Whether the run holds an in-flight permit that is still to be released.
    pub holds_permit: bool,
    pub shard_id: String,
    pub table: String,
    /// Where the chunk in hand begins; the rows before it are written.
    pub next_row: usize,
    /// Microseconds spent in the inserts so far.
    pub write_us: u64,
}

/// What the caller reports.
#[derive(Debug, Clone, PartialEq, Eq)]
pub enum WriteEvent {
    /// Start the flush.
    Begin,
    /// A permit was granted after `waited_us`; `available` permits are left.
    PermitGranted { waited_us: u64, available: usize },
    /// The semaphore is closed.
    PermitClosed,
    /// A connection was taken after `waited_us`; the pool now holds
    /// `pool_size` connections, `pool_idle` of them idle.
    Connected { waited_us: u64, pool_size: u32, pool_idle: u32 },
    /// No connection could be had; the text is the store's error.
    ConnectFailed(String),
    /// The chunk in hand was written in `elapsed_us`.
    Inserted { elapsed_us: u64 },
    /// The chunk in hand failed; the text is the store's error.
    InsertFailed(String),
}

/// What the caller is to do next.
#[derive(Debug, PartialEq, Eq)]
pub enum WriteStep {
    /// Wait for an in-flight permit.
    AcquirePermit,
    /// Take a connection from this shard's pool.
    Connect { shard_id: String },
    /// Write `rows[start..end]` into `table` on this shard as one insert.
    Insert { shard_id: String, table: String, start: usize, end: usize },
    /// The flush is over. Release the permit where `release_permit` says so.
    Finish { result: AppResult<()>, release_permit: bool },
}

/// Where the chunk that begins at `start` ends.
pub open spec fn chunk_end(start: usize, chunk: usize, len: usize) -> usize {
    if len - start > chunk {
        (start + chunk) as usize
    } else {
        len
    }
}

/// In-flight batches: the limit less the permits that are left, never
/// below 0 and never above the largest `i64`.
pub open spec fn inflight_depth(max: usize, available: usize) -> i64 {
    if available >= max {
        0
    } else if max - available > i64::MAX {
        i64::MAX
    } else {
        (max - available) as i64
    }
}

/// Connections in use: the pool's size less its idle connections, never
/// below 0.
pub open spec fn pool_in_use(size: u32, idle: u32) -> i64 {
    if size >= idle {
        (size - idle) as i64
    } else {
        0
    }
}

/// The pool ceiling that the router knows for a shard, 0 for an unknown one.
pub open spec fn pool_max_spec(router: ShardRouter, shard_id: Seq<char>) -> i64 {
    match first_with_id(router.shards@, shard_id, 0) {
        Some(i) => router.shards@[i].pool_max as i64,
        None => 0,
    }
}

/// The cases of one step of a flush.
pub enum WriteCase {
    /// The batch is not due: nothing is done.
    Skipped,
    /// The batch is due: a permit is asked for.
    Started,
    /// A permit was granted and a shard matches the key.
    Routed,
    /// A permit was granted and no shard matches the key.
    Unroutable,
    /// The semaphore is closed.
    Closed,
    /// A connection is there and the first chunk goes out.
    FirstChunk,
    /// No connection could be had.
    ConnectFailed,
    /// A chunk was written and another follows.
    NextChunk,
    /// The last chunk was written, or there was nothing left to write.
    Completed,
    /// A chunk failed.
    InsertFailed,
    /// The event does not fit the phase.
    Unexpected,
}

#[derive(Debug, Clone, PartialEq, Eq)]
pub struct DbHandler {
    pub router: ShardRouter,
    pub writer: WriterConfig,
    pub metrics: DbMetrics,
}

impl DbHandler {
    pub fn new(router: ShardRouter, writer: WriterConfig, metrics: DbMetrics) -> (r: Self)
        ensures
            r.router == router,
            r.writer == writer,
            r.metrics == metrics,
    {
        DbHandler { router, writer, metrics }
    }

    /// Which case a step falls under.
    pub open spec fn case_of<T>(
        &self,
        run: WriteRun,
        batch: Batch<T>,
        event: WriteEvent,
        now: u64,
    ) -> WriteCase {
        match (run.phase, event) {
            (WritePhase::Idle, WriteEvent::Begin) => {
                if batch.due(now) {
                    WriteCase::Started
                } else {
                    WriteCase::Skipped
                }
            },
            (WritePhase::AwaitPermit, WriteEvent::PermitGranted { .. }) => {
                if first_match(
                    self.router.shards@,
                    batch.key.exchange@,
                    batch.key.stream@,
                    batch.key.symbol@,
                    0,
                ) is Some {
                    WriteCase::Routed
                } else {
                    WriteCase::Unroutable
                }
            },
            (WritePhase::AwaitPermit, WriteEvent::PermitClosed) => WriteCase::Closed,
            (WritePhase::AwaitConnection, WriteEvent::Connected { .. }) => {
                if batch.rows@.len() == 0 {
                    WriteCase::Completed
                } else {
                    WriteCase::FirstChunk
                }
            },
            (WritePhase::AwaitConnection, WriteEvent::ConnectFailed(_)) => WriteCase::ConnectFailed,
            (WritePhase::Inserting, WriteEvent::Inserted { .. }) => {
                if run.next_row >= batch.rows@.len() || chunk_end(
                    run.next_row,
                    batch.chunk_rows,
                    batch.rows@.len() as usize,
                ) >= batch.rows@.len() {
                    WriteCase::Completed
                } else {
                    WriteCase::NextChunk
                }
            },
            (WritePhase::Inserting, WriteEvent::InsertFailed(_)) => WriteCase::InsertFailed,
            _ => WriteCase::Unexpected,
        }
    }

    fn insert_step<T>(run: &WriteRun, batch: &Batch<T>) -> (step: WriteStep)
        requires
            batch.chunk_rows > 0,
            run.next_row < batch.rows@.len(),
        ensures
            step matches WriteStep::Insert { shard_id, table, start, end } && shard_id@
                == run.shard_id@ && table@ == run.table@ && start == run.next_row && end
                == chunk_end(run.next_row, batch.chunk_rows, batch.rows@.len() as usize),
    {
        let len = batch.rows.len();
        let end = if len - run.next_row > batch.chunk_rows {
            run.next_row + batch.chunk_rows
        } else {
            len
        };
        WriteStep::Insert {
            shard_id: run.shard_id.clone(),
            table: run.table.clone(),
            start: run.next_row,
            end,
        }
    }

    fn complete<T>(&mut self, run: &mut WriteRun, batch: &mut Batch<T>, now: u64) -> (step:
        WriteStep)
        ensures
            step == (WriteStep::Finish { result: Ok(()), release_permit: true }),
            final(run).phase == WritePhase::Finished,
            !final(run).holds_permit,
            final(batch).rows@.len() == 0,
            final(batch).enqueued_at == now,
            final(batch).same_setup(old(batch)),
            final(self).metrics == old(self).metrics.flushed(
                old(batch).rows@.len() as u64,
                old(run).write_us,
            ),
            final(self).router == old(self).router,
            final(self).writer == old(self).writer,
    {
        let rows = batch.rows.len() as u64;
        self.metrics.observe_write_latency(run.write_us);
        self.metrics.inc_batches_written();
        self.metrics.add_rows_written(rows);
        self.metrics.observe_rows_per_batch(rows);
        batch.rows = Vec::new();
        batch.enqueued_at = now;
        run.phase = WritePhase::Finished;
        run.holds_permit = false;
        WriteStep::Finish { result: Ok(()), release_permit: true }
    }

    /// Takes what came of the last step and decides the next one.
    ///
    /// - `Begin` starts the flush: a batch that is not due is done at once,
    ///   with `Ok` and nothing written; for one that is due a permit is
    ///   asked for. An empty batch is never due.
    /// - A granted permit is recorded (the wait, the depth, the time that
    ///   the batch has waited since it was enqueued, in milliseconds); the
    ///   router is asked once. Without a matching shard the flush fails
    ///   with `NoShardForKey` and the permit goes back.
    /// - A closed semaphore ends the flush with `Shutdown`.
    /// - A connection is recorded (the wait, the pool's health), and the
    ///   first chunk goes out: the chunks are `chunk_rows` long, the last
    ///   one may be shorter.
    /// - After the last chunk the batch is cleared, `enqueued_at` becomes
    ///   `now`, and one written batch with its rows is counted.
    /// - A failed chunk ends the flush at once: one failed batch is counted,
    ///   the store's error is handed on, and the rows stay.
    /// - The permit is released on every way out that follows its grant.
    ///
    /// The rows leave the batch in the completed case only; in every other
    /// case the batch is as it was.
    pub fn write_batch<T: BatchInsertRow>(
        &mut self,
        run: &mut WriteRun,
        batch: &mut Batch<T>,
        event: WriteEvent,
        now: u64,
    ) -> (step: WriteStep)
        requires
            old(batch).chunk_rows > 0,
        ensures
            final(self).router == old(self).router,
            final(self).writer == old(self).writer,
            !(old(self).case_of(*old(run), *old(batch), event, now) is Completed) ==> *final(batch)
                == *old(batch),
            match old(self).case_of(*old(run), *old(batch), event, now) {
                WriteCase::Skipped => {
                    &&& final(self).metrics == old(self).metrics
                    &&& final(run).phase == WritePhase::Finished
                    &&& !final(run).holds_permit
                    &&& step == (WriteStep::Finish { result: Ok(()), release_permit: false })
                },
                WriteCase::Started => {
                    &&& final(self).metrics == old(self).metrics
                    &&& final(run).phase == WritePhase::AwaitPermit
                    &&& !final(run).holds_permit
                    &&& step is AcquirePermit
                },
                WriteCase::Routed => {
                    &&& event matches WriteEvent::PermitGranted { waited_us, available }
                        && final(self).metrics == old(self).metrics.admitted(
                        waited_us,
                        inflight_depth(old(self).writer.max_inflight_batches, available),
                        elapsed_ms(now, old(batch).enqueued_at),
                    )
                    &&& final(run).phase == WritePhase::AwaitConnection
                    &&& final(run).holds_permit
                    &&& final(run).next_row == 0
                    &&& final(run).write_us == 0
                    &&& Some(final(run).shard_id@) == match first_match(
                        old(self).router.shards@,
                        old(batch).key.exchange@,
                        old(batch).key.stream@,
                        old(batch).key.symbol@,
                        0,
                    ) {
                        Some(i) => Some(old(self).router.shards@[i].id@),
                        None => None,
                    }
                    &&& step matches WriteStep::Connect { shard_id } && shard_id@
                        == final(run).shard_id@
                },
                WriteCase::Unroutable => {
                    &&& event matches WriteEvent::PermitGranted { waited_us, available }
                        && final(self).metrics == old(self).metrics.admitted(
                        waited_us,
                        inflight_depth(old(self).writer.max_inflight_batches, available),
                        elapsed_ms(now, old(batch).enqueued_at),
                    )
                    &&& final(run).phase == WritePhase::Finished
                    &&& !final(run).holds_permit
                    &&& step matches WriteStep::Finish {
                        result: Err(AppError::NoShardForKey { exchange, stream, symbol }),
                        release_permit: true,
                    } && exchange@ == old(batch).key.exchange@ && stream@ == old(batch).key.stream@
                        && symbol@ == old(batch).key.symbol@
                },
                WriteCase::Closed => {
                    &&& final(self).metrics == old(self).metrics
                    &&& final(run).phase == WritePhase::Finished
                    &&& !final(run).holds_permit
                    &&& step == (WriteStep::Finish {
                        result: Err(AppError::Shutdown),
                        release_permit: false,
                    })
                },
                WriteCase::FirstChunk => {
                    &&& event matches WriteEvent::Connected { waited_us, pool_size, pool_idle }
                        && final(self).metrics == old(self).metrics.connected(
                        waited_us,
                        pool_in_use(pool_size, pool_idle),
                        pool_idle as i64,
                        pool_max_spec(old(self).router, old(run).shard_id@),
                    )
                    &&& final(run).phase == WritePhase::Inserting
                    &&& final(run).holds_permit == old(run).holds_permit
                    &&& final(run).shard_id@ == old(run).shard_id@
                    &&& final(run).table@ == "ex_"@ + old(batch).key.exchange@ + "."@
                        + T::kind_table()
                    &&& final(run).next_row == 0
                    &&& final(run).write_us == old(run).write_us
                    &&& step matches WriteStep::Insert { shard_id, table, start, end } && shard_id@
                        == final(run).shard_id@ && table@ == final(run).table@ && start == 0 && end
                        == chunk_end(0, old(batch).chunk_rows, old(batch).rows@.len() as usize)
                },
                WriteCase::ConnectFailed => {
                    &&& final(self).metrics == old(self).metrics
                    &&& final(run).phase == WritePhase::Finished
                    &&& !final(run).holds_permit
                    &&& event matches WriteEvent::ConnectFailed(msg) && step == (WriteStep::Finish {
                        result: Err(AppError::Sqlx(msg)),
                        release_permit: old(run).holds_permit,
                    })
                },
                WriteCase::NextChunk => {
                    &&& final(self).metrics == old(self).metrics
                    &&& final(run).phase == WritePhase::Inserting
                    &&& final(run).holds_permit == old(run).holds_permit
                    &&& final(run).shard_id@ == old(run).shard_id@
                    &&& final(run).table@ == old(run).table@
                    &&& final(run).next_row == chunk_end(
                        old(run).next_row,
                        old(batch).chunk_rows,
                        old(batch).rows@.len() as usize,
                    )
                    &&& event matches WriteEvent::Inserted { elapsed_us } && final(run).write_us
                        == sat_add(old(run).write_us, elapsed_us)
                    &&& step matches WriteStep::Insert { shard_id, table, start, end } && shard_id@
                        == final(run).shard_id@ && table@ == final(run).table@ && start
                        == final(run).next_row && end == chunk_end(
                        final(run).next_row,
                        old(batch).chunk_rows,
                        old(batch).rows@.len() as usize,
                    )
                },
                WriteCase::Completed => {
                    &&& final(batch).rows@.len() == 0
                    &&& final(batch).enqueued_at == now
                    &&& final(batch).same_setup(old(batch))
                    &&& final(run).phase == WritePhase::Finished
                    &&& !final(run).holds_permit
                    &&& step == (WriteStep::Finish { result: Ok(()), release_permit: true })
                    &&& match event {
                        WriteEvent::Inserted { elapsed_us } => {
                            final(self).metrics == old(self).metrics.flushed(
                                old(batch).rows@.len() as u64,
                                sat_add(old(run).write_us, elapsed_us),
                            )
                        },
                        WriteEvent::Connected { waited_us, pool_size, pool_idle } => {
                            final(self).metrics == old(self).metrics.connected(
                                waited_us,
                                pool_in_use(pool_size, pool_idle),
                                pool_idle as i64,
                                pool_max_spec(old(self).router, old(run).shard_id@),
                            ).flushed(0, old(run).write_us)
                        },
                        _ => false,
                    }
                },
                WriteCase::InsertFailed => {
                    &&& final(self).metrics == old(self).metrics.failed()
                    &&& final(run).phase == WritePhase::Finished
                    &&& !final(run).holds_permit
                    &&& event matches WriteEvent::InsertFailed(msg) && step == (WriteStep::Finish {
                        result: Err(AppError::Sqlx(msg)),
                        release_permit: old(run).holds_permit,
                    })
                },
                WriteCase::Unexpected => {
                    &&& final(self).metrics == old(self).metrics
                    &&& final(run).phase == WritePhase::Finished
                    &&& !final(run).holds_permit
                    &&& step matches WriteStep::Finish {
                        result: Err(AppError::Internal(m)),
                        release_permit,
                    } && m@ == "unexpected write event"@ && release_permit == old(run).holds_permit
                },
            },
    {
        let held = run.holds_permit;
        match (run.phase, event) {
            (WritePhase::Idle, WriteEvent::Begin) => {
                run.holds_permit = false;
                if batch.should_flush(now) {
                    run.phase = WritePhase::AwaitPermit;
                    WriteStep::AcquirePermit
                } else {
                    run.phase = WritePhase::Finished;
                    WriteStep::Finish { result: Ok(()), release_permit: false }
                }
            },
            (WritePhase::AwaitPermit, WriteEvent::PermitGranted { waited_us, available }) => {
                let max = self.writer.max_inflight_batches;
                let depth: i64 = if available >= max {
                    0
                } else if (max - available) as u64 > 0x7fff_ffff_ffff_ffffu64 {
                    i64::MAX
                } else {
                    (max - available) as i64
                };
                let delay: u64 = if now >= batch.enqueued_at {
                    now - batch.enqueued_at
                } else {
                    0
                };
                self.metrics.observe_queue_wait(waited_us);
                self.metrics.set_queue_depth(depth);
                self.metrics.observe_flush_delay(delay);
                let routed = self.router.shard_id_for(
                    batch.key.exchange.as_str(),
                    batch.key.stream.as_str(),
                    batch.key.symbol.as_str(),
                );
                match routed {
                    Ok(id) => {
                        run.phase = WritePhase::AwaitConnection;
                        run.holds_permit = true;
                        run.shard_id = id.clone();
                        run.next_row = 0;
                        run.write_us = 0;
                        WriteStep::Connect { shard_id: id }
                    },
                    Err(e) => {
                        run.phase = WritePhase::Finished;
                        run.holds_permit = false;
                        WriteStep::Finish { result: Err(e), release_permit: true }
                    },
                }
            },
            (WritePhase::AwaitPermit, WriteEvent::PermitClosed) => {
                run.phase = WritePhase::Finished;
                run.holds_permit = false;
                WriteStep::Finish { result: Err(AppError::Shutdown), release_permit: false }
            },
            (WritePhase::AwaitConnection, WriteEvent::Connected { waited_us, pool_size, pool_idle }) => {
                let in_use: i64 = if pool_size >= pool_idle {
                    (pool_size - pool_idle) as i64
                } else {
                    0
                };
                let pool_max = self.router.pool_max_of(run.shard_id.as_str());
                self.metrics.observe_pool_wait(waited_us);
                self.metrics.set_pool_health(in_use, pool_idle as i64, pool_max as i64);
                if batch.rows.len() == 0 {
                    self.complete(run, batch, now)
                } else {
                    run.table = batch.rows[0].table(batch.key.exchange.as_str());
                    run.phase = WritePhase::Inserting;
                    run.next_row = 0;
                    DbHandler::insert_step(run, batch)
                }
            },
            (WritePhase::AwaitConnection, WriteEvent::ConnectFailed(msg)) => {
                run.phase = WritePhase::Finished;
                run.holds_permit = false;
                WriteStep::Finish { result: Err(AppError::Sqlx(msg)), release_permit: held }
            },
            (WritePhase::Inserting, WriteEvent::Inserted { elapsed_us }) => {
                run.write_us = bump(run.write_us, elapsed_us);
                let len = batch.rows.len();
                if run.next_row >= len {
                    return self.complete(run, batch, now);
                }
                let written = if len - run.next_row > batch.chunk_rows {
                    run.next_row + batch.chunk_rows
                } else {
                    len
                };
                if written >= len {
                    self.complete(run, batch, now)
                } else {
                    run.next_row = written;
                    DbHandler::insert_step(run, batch)
                }
            },
            (WritePhase::Inserting, WriteEvent::InsertFailed(msg)) => {
                self.metrics.inc_failed_batch();
                run.phase = WritePhase::Finished;
                run.holds_permit = false;
                WriteStep::Finish { result: Err(AppError::Sqlx(msg)), release_permit: held }
            },
            _ => {
                run.phase = WritePhase::Finished;
                run.holds_permit = false;
                WriteStep::Finish {
                    result: Err(AppError::Internal(String::from_str("unexpected write event"))),
                    release_permit: held,
                }
            },
        }
    }

    /// Decides what follows one attempt of a flush under retry: success
    /// ends it; a failure with attempts left counts one retried batch and
    /// asks for a pause before the next attempt; a failure with none left
    /// hands the error on.
    pub fn write_batch_with_retry(
        &mut self,
        retry: &mut RetryState,
        result: AppResult<()>,
    ) -> (step: RetryStep)
        ensures
            final(self).router == old(self).router,
            final(self).writer == old(self).writer,
            final(retry).retries == old(retry).retries,
            match result {
                Ok(()) => step == RetryStep::Finish(result) && *final(retry) == *old(retry)
                    && final(self).metrics == old(self).metrics,
                Err(e) => if old(retry).attempt < old(retry).retries {
                    &&& step == RetryStep::SleepThenRetry
                    &&& final(retry).attempt == old(retry).attempt + 1
                    &&& final(self).metrics == old(self).metrics.retried()
                } else {
                    &&& step == RetryStep::Finish(result)
                    &&& *final(retry) == *old(retry)
                    &&& final(self).metrics == old(self).metrics
                },
            },
    {
        if result.is_ok() || retry.attempt >= retry.retries {
            return RetryStep::Finish(result);
        }
        self.metrics.inc_retried_batch();
        retry.attempt = retry.attempt + 1;
        RetryStep::SleepThenRetry
    }
}

impl WriteRun {
    /// A flush that has not begun: no shard and no table are chosen yet.
    pub fn new() -> (r: WriteRun)
        ensures
            r.phase == WritePhase::Idle,
            !r.holds_permit,
            r.shard_id@ == Seq::<char>::empty(),
            r.table@ == Seq::<char>::empty(),
            r.next_row == 0,
            r.write_us == 0,
    {
        WriteRun {
            phase: WritePhase::Idle,
            holds_permit: false,
            shard_id: String::new(),
            table: String::new(),
            next_row: 0,
            write_us: 0,
        }
    }
}

/// How often a flush was tried again, and how often it may be.
#[derive(Debug, Clone, Copy, PartialEq, Eq, Structural)]
pub struct RetryState {
    pub attempt: usize,
    pub retries: usize,
}

impl RetryState {
    pub fn new(retries: usize) -> (r: RetryState)
        ensures
            r.attempt == 0,
            r.retries == retries,
    {
        RetryState { attempt: 0, retries }
    }
}

/// What follows one attempt.
#[derive(Debug, PartialEq, Eq)]
pub enum RetryStep {
    /// The flush is over with this result.
    Finish(AppResult<()>),
    /// Wait for the backoff, then flush again.
    SleepThenRetry,
}

} // verus!

//! Per exchange two limiters, one for subscribe and one for reconnect
//! attempts, shared by all connections of the exchange.

use crate::error::{AppError, AppResult};
use crate::ingest::ws::subscribe_limiter::{Acquire, TokenBucket};
use crate::text::str_eq;
use vstd::prelude::*;
use vstd::string::*;

verus! {

#[derive(Debug, Clone, PartialEq, Eq)]
pub struct ExchangeLimiters {
    pub exchange: String,
    pub subscribe: TokenBucket,
    pub reconnect: TokenBucket,
}

/// The two limiters of an exchange.
#[derive(Debug, Clone, Copy, PartialEq, Eq, Structural)]
pub enum LimiterName {
    Subscribe,
    Reconnect,
}

/// The index of the first entry from `from` on for the exchange.
pub open spec fn find_limiters(
    limiters: Seq<ExchangeLimiters>,
    exchange: Seq<char>,
    from: int,
) -> Option<int>
    decreases limiters.len() - from,
{
    if from < 0 || from >= limiters.len() {
        None
    } else if limiters[from].exchange@ == exchange {
        Some(from)
    } else {
        find_limiters(limiters, exchange, from + 1)
    }
}

/// The bucket of that name.
pub open spec fn bucket_of(l: ExchangeLimiters, name: LimiterName) -> TokenBucket {
    match name {
        LimiterName::Subscribe => l.subscribe,
        LimiterName::Reconnect => l.reconnect,
    }
}

/// The entry with the bucket of that name replaced.
pub open spec fn with_bucket(l: ExchangeLimiters, name: LimiterName, b: TokenBucket) -> ExchangeLimiters {
    match name {
        LimiterName::Subscribe => ExchangeLimiters { subscribe: b, ..l },
        LimiterName::Reconnect => ExchangeLimiters { reconnect: b, ..l },
    }
}

#[derive(Debug, Clone, PartialEq, Eq)]
pub struct WsLimiterRegistry {
    pub limiters: Vec<ExchangeLimiters>,
}

impl WsLimiterRegistry {
    /// Every bucket is within its capacity.
    pub open spec fn wf(&self) -> bool {
        forall|i: int|
            0 <= i < self.limiters@.len() ==> (#[trigger] self.limiters@[i]).subscribe.wf()
                && self.limiters@[i].reconnect.wf()
    }

    pub fn new() -> (r: WsLimiterRegistry)
        ensures
            r.limiters@.len() == 0,
            r.wf(),
    {
        WsLimiterRegistry { limiters: Vec::new() }
    }

    /// Adds the limiters of an exchange, both full.
    pub fn register(
        &mut self,
        exchange: String,
        subscribe_rate: u32,
        subscribe_burst: u32,
        reconnect_rate: u32,
        reconnect_burst: u32,
        now: u64,
    )
        requires
            old(self).wf(),
        ensures
            final(self).wf(),
            final(self).limiters@.len() == old(self).limiters@.len() + 1,
            final(self).limiters@.drop_last() == old(self).limiters@,
            final(self).limiters@.last().exchange == exchange,
            final(self).limiters@.last().subscribe.level
                == final(self).limiters@.last().subscribe.cap(),
            final(self).limiters@.last().subscribe.rate == subscribe_rate,
            final(self).limiters@.last().subscribe.burst == subscribe_burst,
            final(self).limiters@.last().reconnect.level
                == final(self).limiters@.last().reconnect.cap(),
            final(self).limiters@.last().reconnect.rate == reconnect_rate,
            final(self).limiters@.last().reconnect.burst == reconnect_burst,
    {
        let subscribe = TokenBucket::new(subscribe_rate, subscribe_burst, now);
        let reconnect = TokenBucket::new(reconnect_rate, reconnect_burst, now);
        self.limiters.push(ExchangeLimiters { exchange, subscribe, reconnect });
        assert(self.limiters@.drop_last() =~= old(self).limiters@);
    }

    /// One attempt on a limiter of an exchange at `now`. An exchange
    /// without limiters is an invalid configuration, and nothing changes.
    pub fn try_acquire(&mut self, exchange: &str, name: LimiterName, now: u64) -> (r: AppResult<
        Acquire,
    >)
        requires
            old(self).wf(),
        ensures
            final(self).wf(),
            match find_limiters(old(self).limiters@, exchange@, 0) {
                Some(i) => {
                    let before = bucket_of(old(self).limiters@[i], name);
                    &&& final(self).limiters@ == old(self).limiters@.update(
                        i,
                        with_bucket(old(self).limiters@[i], name, before.after(now)),
                    )
                    &&& r == Ok::<Acquire, AppError>(
                        if before.grants(now) {
                            Acquire::Granted
                        } else {
                            Acquire::Wait(before.wait_at(now) as u64)
                        },
                    )
                },
                None => final(self).limiters@ == old(self).limiters@ && (r matches Err(
                    AppError::InvalidConfig(m),
                ) && m@ == "no limiters for exchange: "@ + exchange@),
            },
    {
        let mut i: usize = 0;
        while i < self.limiters.len()
            invariant
                i <= self.limiters@.len(),
                self.limiters@ == old(self).limiters@,
                self.wf(),
                find_limiters(self.limiters@, exchange@, 0) == find_limiters(
                    self.limiters@,
                    exchange@,
                    i as int,
                ),
            decreases self.limiters@.len() - i,
        {
            if str_eq(self.limiters[i].exchange.as_str(), exchange) {
                let entry = &self.limiters[i];
                let mut subscribe = entry.subscribe;
                let mut reconnect = entry.reconnect;
                let acquired = match name {
                    LimiterName::Subscribe => subscribe.try_acquire(now),
                    LimiterName::Reconnect => reconnect.try_acquire(now),
                };
                let next = ExchangeLimiters {
                    exchange: entry.exchange.clone(),
                    subscribe,
                    reconnect,
                };
                self.limiters.set(i, next);
                return Ok(acquired);
            }
            i = i + 1;
        }
        let mut m = String::from_str("no limiters for exchange: ");
        m.append(exchange);
        Err(AppError::InvalidConfig(m))
    }

    /// One subscribe attempt.
    pub fn acquire_subscribe(&mut self, exchange: &str, now: u64) -> (r: AppResult<Acquire>)
        requires
            old(self).wf(),
        ensures
            final(self).wf(),
            find_limiters(old(self).limiters@, exchange@, 0) matches Some(i) ==> r == Ok::<
                Acquire,
                AppError,
            >(
                if old(self).limiters@[i].subscribe.grants(now) {
                    Acquire::Granted
                } else {
                    Acquire::Wait(old(self).limiters@[i].subscribe.wait_at(now) as u64)
                },
            ) && final(self).limiters@ == old(self).limiters@.update(
                i,
                with_bucket(
                    old(self).limiters@[i],
                    LimiterName::Subscribe,
                    old(self).limiters@[i].subscribe.after(now),
                ),
            ),
            find_limiters(old(self).limiters@, exchange@, 0) is None ==> r is Err
                && final(self).limiters@ == old(self).limiters@,
    {
        self.try_acquire(exchange, LimiterName::Subscribe, now)
    }

    /// One reconnect attempt.
    pub fn acquire_reconnect(&mut self, exchange: &str, now: u64) -> (r: AppResult<Acquire>)
        requires
            old(self).wf(),
        ensures
            final(self).wf(),
            find_limiters(old(self).limiters@, exchange@, 0) matches Some(i) ==> r == Ok::<
                Acquire,
                AppError,
            >(
                if old(self).limiters@[i].reconnect.grants(now) {
                    Acquire::Granted
                } else {
                    Acquire::Wait(old(self).limiters@[i].reconnect.wait_at(now) as u64)
                },
            ) && final(self).limiters@ == old(self).limiters@.update(
                i,
                with_bucket(
                    old(self).limiters@[i],
                    LimiterName::Reconnect,
                    old(self).limiters@[i].reconnect.after(now),
                ),
            ),
            find_limiters(old(self).limiters@, exchange@, 0) is None ==> r is Err
                && final(self).limiters@ == old(self).limiters@,
    {
        self.try_acquire(exchange, LimiterName::Reconnect, now)
    }
}

} // verus!

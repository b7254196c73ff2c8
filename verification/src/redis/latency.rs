//! Rolling tracker of publish latencies: the last N samples in a ring, and
//! their p99 on demand.
//!
//! A sample is a latency in milliseconds as a fixed-point number with three
//! decimals: 12500 stands for 12.5 ms.

use crate::redis::config::RedisConfig;
use vstd::prelude::*;
use vstd::relations::{sorted_by, total_ordering};
use vstd::seq_lib::{lemma_multiset_commutative, lemma_sorted_unique};

verus! {

/// The order of samples.
pub open spec fn ascending() -> spec_fn(u64, u64) -> bool {
    |a: u64, b: u64| a <= b
}

/// The place of the p99 among `n >= 1` sorted samples: `ceil(0.99 n) - 1`.
pub open spec fn p99_index(n: nat) -> int {
    (99 * n + 99) / 100 - 1
}

/// The p99 of the samples: the one at `p99_index` once they are sorted.
pub open spec fn p99_of(samples: Seq<u64>) -> u64 {
    samples.sort_by(ascending())[p99_index(samples.len())]
}

/// The window after one more sample: the oldest one leaves once the window
/// is full.
pub open spec fn slid(window: Seq<u64>, cap: nat, v: u64) -> Seq<u64> {
    if window.len() < cap {
        window.push(v)
    } else {
        window.drop_first().push(v)
    }
}

/// `slice::sort` of the standard library on integers: afterwards the vector
/// holds the same values, each as often as before, in ascending order.
#[verifier::external_body]
fn sort_ascending(v: &mut Vec<u64>)
    ensures
        sorted_by(final(v)@, ascending()),
        final(v)@.to_multiset() == old(v)@.to_multiset(),
{
    v.sort();
}

#[derive(Debug, Clone, PartialEq, Eq)]
pub struct RedisPublishLatency {
    buf: Vec<u64>,
    len: usize,
    idx: usize,
}

impl RedisPublishLatency {
    /// The ring is not empty, `len` samples are held, and the next sample
    /// goes to `idx`; until the ring is full, that is its first free slot.
    pub closed spec fn wf(&self) -> bool {
        &&& self.buf@.len() > 0
        &&& self.len <= self.buf@.len()
        &&& self.idx < self.buf@.len()
        &&& self.len < self.buf@.len() ==> self.idx == self.len
    }

    /// How many samples the window can hold.
    pub closed spec fn capacity(&self) -> nat {
        self.buf@.len()
    }

    /// The samples held, oldest first.
    pub closed spec fn window(&self) -> Seq<u64> {
        if self.len < self.buf@.len() {
            self.buf@.take(self.len as int)
        } else {
            self.buf@.skip(self.idx as int) + self.buf@.take(self.idx as int)
        }
    }

    /// A tracker for the window size of the configuration.
    pub fn from_config(cfg: &RedisConfig) -> (r: RedisPublishLatency)
        requires
            0 < cfg.capacity.redis_publish_latency_window <= usize::MAX,
        ensures
            r.wf(),
            r.capacity() == cfg.capacity.redis_publish_latency_window,
            r.window().len() == 0,
    {
        RedisPublishLatency::new(cfg.capacity.redis_publish_latency_window as usize)
    }

    /// An empty tracker that keeps the last `window_samples` samples.
    pub fn new(window_samples: usize) -> (r: RedisPublishLatency)
        requires
            window_samples > 0,
        ensures
            r.wf(),
            r.capacity() == window_samples,
            r.window().len() == 0,
    {
        let mut buf: Vec<u64> = Vec::new();
        let mut i: usize = 0;
        while i < window_samples
            invariant
                i <= window_samples,
                buf@.len() == i,
            decreases window_samples - i,
        {
            buf.push(0);
            i = i + 1;
        }
        RedisPublishLatency { buf, len: 0, idx: 0 }
    }

    /// Takes one sample. A negative sample is ignored.
    pub fn observe_ms(&mut self, ms: i64)
        requires
            old(self).wf(),
        ensures
            final(self).wf(),
            final(self).capacity() == old(self).capacity(),
            ms < 0 ==> final(self).window() == old(self).window(),
            ms >= 0 ==> final(self).window() == slid(
                old(self).window(),
                old(self).capacity(),
                ms as u64,
            ),
    {
        if ms < 0 {
            return ;
        }
        let cap = self.buf.len();
        let idx = self.idx;
        let ghost before = self.buf@;
        self.buf.set(idx, ms as u64);
        self.idx = if idx + 1 == cap {
            0
        } else {
            idx + 1
        };
        if self.len < cap {
            self.len = self.len + 1;
            proof {
                let after = self.buf@;
                if self.len < cap {
                    assert(after.take(self.len as int) =~= before.take(idx as int).push(ms as u64));
                } else {
                    assert(after.skip(0) + after.take(0) =~= before.take(idx as int).push(
                        ms as u64,
                    ));
                }
            }
        } else {
            proof {
                let after = self.buf@;
                let old_window = before.skip(idx as int) + before.take(idx as int);
                if idx + 1 < cap {
                    assert(after.skip(idx + 1) + after.take(idx + 1) =~= old_window.drop_first().push(
                        ms as u64,
                    ));
                } else {
                    assert(after.skip(0) + after.take(0) =~= old_window.drop_first().push(
                        ms as u64,
                    ));
                }
            }
        }
    }

    /// The rolling p99 over the window; `None` while there is no sample.
    pub fn p99_ms(&self) -> (r: Option<u64>)
        requires
            self.wf(),
        ensures
            match r {
                None => self.window().len() == 0,
                Some(v) => self.window().len() > 0 && v == p99_of(self.window()),
            },
    {
        if self.len == 0 {
            return None;
        }
        let mut snap: Vec<u64> = Vec::new();
        let mut i: usize = 0;
        while i < self.len
            invariant
                i <= self.len <= self.buf@.len(),
                snap@ == self.buf@.take(i as int),
            decreases self.len - i,
        {
            snap.push(self.buf[i]);
            i = i + 1;
            assert(snap@ =~= self.buf@.take(i as int));
        }
        let ghost held = snap@;
        sort_ascending(&mut snap);
        let n = snap.len();
        proof {
            let window = self.window();
            if self.len == self.buf@.len() {
                let a = self.buf@.take(self.idx as int);
                let b = self.buf@.skip(self.idx as int);
                assert(held =~= a + b);
                lemma_multiset_commutative(a, b);
                lemma_multiset_commutative(b, a);
                assert(held.to_multiset() =~= window.to_multiset());
            }
            assert(total_ordering(ascending()));
            window.lemma_sort_by_ensures(ascending());
            lemma_sorted_unique(snap@, window.sort_by(ascending()), ascending());
            held.to_multiset_ensures();
            snap@.to_multiset_ensures();
            window.to_multiset_ensures();
        }
        let at = n - n / 100 - 1;
        Some(snap[at])
    }

    /// How many samples are held.
    pub fn len(&self) -> (n: usize)
        requires
            self.wf(),
        ensures
            n == self.window().len(),
            n <= self.capacity(),
    {
        self.len
    }

    pub fn is_empty(&self) -> (r: bool)
        requires
            self.wf(),
        ensures
            r == (self.window().len() == 0),
    {
        self.len() == 0
    }

    /// Forgets all samples.
    pub fn clear(&mut self)
        requires
            old(self).wf(),
        ensures
            final(self).wf(),
            final(self).capacity() == old(self).capacity(),
            final(self).window().len() == 0,
    {
        self.len = 0;
        self.idx = 0;
        let mut i: usize = 0;
        while i < self.buf.len()
            invariant
                self.buf@.len() == old(self).buf@.len(),
                self.len == 0,
                self.idx == 0,
            decreases self.buf@.len() - i,
        {
            self.buf.set(i, 0);
            i = i + 1;
        }
    }
}

} // verus!

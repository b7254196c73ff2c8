//! Saturating counters and running summaries, the building blocks of the
//! metrics that the components keep.

use vstd::prelude::*;

verus! {

/// `a + b`, held at the largest `u64`.
pub open spec fn sat_add(a: u64, b: u64) -> u64 {
    if a + b > u64::MAX {
        u64::MAX
    } else {
        (a + b) as u64
    }
}

/// Adds `b` to a counter, holding it at the largest value.
pub fn bump(a: u64, b: u64) -> (r: u64)
    ensures
        r == sat_add(a, b),
{
    if a > u64::MAX - b {
        u64::MAX
    } else {
        a + b
    }
}

/// How many observations were made, and their sum.
#[derive(Debug, Clone, Copy, PartialEq, Eq, Structural)]
pub struct Summary {
    pub count: u64,
    pub sum: u64,
}

impl Summary {
    pub open spec fn zero() -> Summary {
        Summary { count: 0, sum: 0 }
    }

    /// The summary after one more observation.
    pub open spec fn with(self, v: u64) -> Summary {
        Summary { count: sat_add(self.count, 1), sum: sat_add(self.sum, v) }
    }

    pub fn new() -> (r: Summary)
        ensures
            r == Summary::zero(),
    {
        Summary { count: 0, sum: 0 }
    }

    pub fn observe(&mut self, v: u64)
        ensures
            *final(self) == old(self).with(v),
    {
        self.count = bump(self.count, 1);
        self.sum = bump(self.sum, v);
    }
}

} // verus!

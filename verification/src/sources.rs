//! Ready-made producers: an integer range and the ascending-ranges ladder.
//!
//! `IntRange` hands out the integers of a half-open range from either end.
//! `AscendingRanges` hands out the ranges `[0, k)` for ever larger `k`, one
//! per pull — a practically inexhaustible outer producer for the flattening
//! adapter: each pull does constant work and the ladder only ends when `k`
//! reaches the integer limit, which no execution approaches.

use crate::producer::{BidiProducer, Producer};
use vstd::prelude::*;

verus! {

/// The half-open integer range `[lo, hi)`, consumed from either end.
pub struct IntRange {
    pub lo: u64,
    pub hi: u64,
}

impl IntRange {
    /// The range `[lo, hi)`; an empty range when `hi <= lo`.
    pub fn new(lo: u64, hi: u64) -> (r: Self)
        ensures
            r == (IntRange { lo, hi }),
            r.remaining() == Seq::new(if lo <= hi { (hi - lo) as nat } else { 0 }, |i: int| (lo + i) as u64),
    {
        IntRange { lo, hi }
    }
}

impl Producer for IntRange {
    type Item = u64;

    open spec fn remaining(&self) -> Seq<u64> {
        Seq::new(
            if self.lo <= self.hi {
                (self.hi - self.lo) as nat
            } else {
                0
            },
            |i: int| (self.lo + i) as u64,
        )
    }

    fn pull_front(&mut self) -> (r: Option<u64>) {
        if self.lo < self.hi {
            let v = self.lo;
            self.lo = self.lo + 1;
            proof {
                assert(self.remaining() =~= old(self).remaining().drop_first());
            }
            Some(v)
        } else {
            None
        }
    }
}

impl BidiProducer for IntRange {
    fn pull_back(&mut self) -> (r: Option<u64>) {
        if self.lo < self.hi {
            self.hi = self.hi - 1;
            proof {
                assert(old(self).remaining().last() == self.hi);
                assert(self.remaining() =~= old(self).remaining().drop_last());
            }
            Some(self.hi)
        } else {
            None
        }
    }
}

/// The ladder of ranges `[0, k)` for `k = next_k, next_k + 1, ...`, one range
/// per pull, up to the integer limit.
pub struct AscendingRanges {
    pub next_k: u64,
}

impl AscendingRanges {
    /// Start the ladder at `k = 0`: the first range handed out is empty, the
    /// next holds one integer, and so on.
    pub fn new() -> (r: Self)
        ensures
            r == (AscendingRanges { next_k: 0 }),
    {
        AscendingRanges { next_k: 0 }
    }
}

impl Producer for AscendingRanges {
    type Item = IntRange;

    open spec fn remaining(&self) -> Seq<IntRange> {
        Seq::new(
            (u64::MAX - self.next_k) as nat,
            |i: int| IntRange { lo: 0, hi: (self.next_k + i) as u64 },
        )
    }

    fn pull_front(&mut self) -> (r: Option<IntRange>) {
        if self.next_k < u64::MAX {
            let k = self.next_k;
            self.next_k = self.next_k + 1;
            proof {
                assert(self.remaining() =~= old(self).remaining().drop_first());
            }
            Some(IntRange { lo: 0, hi: k })
        } else {
            None
        }
    }
}

} // verus!

//! The raw time-series row the aggregation engine consumes.
//!
//! A sample carries its window `[start_time, end_time]` in epoch seconds
//! and a vector of nonnegative measures. Decimal-valued measures (prices,
//! slip fractions, indices) are held as fixed-point integers scaled by
//! 10^8; counts, volumes and fees are held unscaled. Each telemetry
//! variant fixes its own column layout over this one shape.

use vstd::prelude::*;
use crate::calendar::MAX_TIMESTAMP;

verus! {

/// Most samples one aggregation call accepts; keeps every cumulative
/// roll-up comfortably inside `u128`.
pub const MAX_SAMPLES: usize = 268_435_456;

/// One ingested time-series row: a closed time range and one measure per
/// column of the active variant's layout.
pub struct RawSample {
    pub start_time: u64,
    pub end_time: u64,
    pub measures: Vec<u64>,
}

impl RawSample {
    /// Well-formed for a layout of `ncols` columns: the range is ordered,
    /// starts inside the supported calendar, and has one value per column.
    pub open spec fn wf(self, ncols: int) -> bool {
        &&& self.start_time <= self.end_time
        &&& self.start_time <= MAX_TIMESTAMP
        &&& self.measures@.len() == ncols
    }

    pub fn new(start_time: u64, end_time: u64, measures: Vec<u64>) -> (s: RawSample)
        requires
            start_time <= end_time,
            start_time <= MAX_TIMESTAMP,
        ensures
            s.wf(measures@.len() as int),
            s.start_time == start_time,
            s.end_time == end_time,
            s.measures@ == measures@,
    {
        RawSample { start_time, end_time, measures }
    }
}

pub open spec fn samples_wf(s: Seq<RawSample>, ncols: int) -> bool {
    forall|i: int| 0 <= i < s.len() ==> (#[trigger] s[i]).wf(ncols)
}

/// Samples arrive in stored order: non-decreasing start times.
pub open spec fn sorted_by_start(s: Seq<RawSample>) -> bool {
    forall|i: int, j: int| 0 <= i <= j < s.len() ==> s[i].start_time <= s[j].start_time
}

/// Checks that `samples` is sorted by start time and well formed for a
/// layout of `ncols` columns; the aggregation entry points require both.
pub fn check_samples(samples: &Vec<RawSample>, ncols: usize) -> (ok: bool)
    ensures
        ok == (samples_wf(samples@, ncols as int) && sorted_by_start(samples@)),
{
    let n = samples.len();
    let mut i: usize = 0;
    while i < n
        invariant
            0 <= i <= n,
            n == samples@.len(),
            forall|k: int| 0 <= k < i ==> (#[trigger] samples@[k]).wf(ncols as int),
            forall|k: int, l: int| 0 <= k <= l < i ==> samples@[k].start_time <= samples@[l].start_time,
        decreases n - i,
    {
        let s = &samples[i];
        if !(s.start_time <= s.end_time && s.start_time <= MAX_TIMESTAMP && s.measures.len()
            == ncols) {
            return false;
        }
        if i > 0 && samples[i - 1].start_time > s.start_time {
            return false;
        }
        i = i + 1;
    }
    true
}

} // verus!

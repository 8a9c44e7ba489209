//! The roll-up aggregation engine.
//!
//! A variant policy assigns each measure column one of four strategies:
//! report the first boundary value, report the last boundary value, sum
//! across all samples, or take the arithmetic mean across all samples
//! (rounded toward zero). [`aggregate_range`] applies a policy to a run
//! of samples — one bucket, or the whole window — and
//! [`partition_starts`] finds where the buckets of a window begin.

use vstd::prelude::*;
use crate::bucket::bucket_key;
use crate::bucket::lemma_the_key_ordered;
use crate::bucket::same_bucket;
use crate::bucket::the_key;
use crate::granularity::Granularity;
use crate::sample::MAX_SAMPLES;
use crate::sample::RawSample;
use crate::sample::samples_wf;
use crate::sample::sorted_by_start;

verus! {

/// How one measure column is rolled up within a run of samples.
#[derive(Clone, Copy, PartialEq, Eq, Structural, Debug)]
pub enum Strategy {
    /// The value of the chronologically first sample (stock "as of start").
    BoundaryFirst,
    /// The value of the chronologically last sample (stock "as of end").
    BoundaryLast,
    /// The sum across all samples (flows: volumes, fees, counts).
    Cumulative,
    /// The arithmetic mean across all samples, rounded toward zero
    /// (slip percentages).
    Averaged,
}

/// The measure of column `c` in sample `s`.
pub open spec fn col_val(s: RawSample, c: int) -> int {
    s.measures@[c] as int
}

/// The sum of column `c` over a run of samples.
pub open spec fn sum_col(s: Seq<RawSample>, c: int) -> int
    decreases s.len(),
{
    if s.len() == 0 {
        0
    } else {
        sum_col(s.drop_last(), c) + col_val(s.last(), c)
    }
}

/// The rolled-up value of column `c` over the nonempty run `s`.
pub open spec fn strategy_value(st: Strategy, s: Seq<RawSample>, c: int) -> int {
    match st {
        Strategy::BoundaryFirst => col_val(s[0], c),
        Strategy::BoundaryLast => col_val(s.last(), c),
        Strategy::Cumulative => sum_col(s, c),
        Strategy::Averaged => sum_col(s, c) / s.len() as int,
    }
}

pub proof fn lemma_sum_col_split(s: Seq<RawSample>, mid: int, c: int)
    requires
        0 <= mid <= s.len(),
    ensures
        sum_col(s, c) == sum_col(s.take(mid), c) + sum_col(s.skip(mid), c),
    decreases s.len(),
{
    if mid == s.len() {
        assert(s.take(mid) == s);
        assert(s.skip(mid).len() == 0);
    } else {
        lemma_sum_col_split(s.drop_last(), mid, c);
        assert(s.drop_last().take(mid) == s.take(mid));
        assert(s.skip(mid).drop_last() == s.drop_last().skip(mid));
        assert(s.skip(mid).last() == s.last());
        assert(s.skip(mid).len() > 0);
    }
}

pub proof fn lemma_sum_col_bounds(s: Seq<RawSample>, c: int)
    ensures
        0 <= sum_col(s, c) <= s.len() * 0xffff_ffff_ffff_ffff,
    decreases s.len(),
{
    if s.len() > 0 {
        lemma_sum_col_bounds(s.drop_last(), c);
        assert((s.len() - 1) * 0xffff_ffff_ffff_ffff + 0xffff_ffff_ffff_ffff == s.len()
            * 0xffff_ffff_ffff_ffff) by (nonlinear_arith);
    }
}

/// A mean of measures never exceeds the largest measure value.
pub proof fn lemma_mean_bounded(s: Seq<RawSample>, c: int)
    requires
        s.len() > 0,
    ensures
        0 <= sum_col(s, c) / s.len() as int <= 0xffff_ffff_ffff_ffff,
{
    lemma_sum_col_bounds(s, c);
    vstd::arithmetic::div_mod::lemma_div_pos_is_pos(sum_col(s, c), s.len() as int);
    vstd::arithmetic::div_mod::lemma_div_is_ordered(
        sum_col(s, c),
        s.len() as int * 0xffff_ffff_ffff_ffff,
        s.len() as int,
    );
    vstd::arithmetic::mul::lemma_mul_is_commutative(s.len() as int, 0xffff_ffff_ffff_ffff);
    vstd::arithmetic::div_mod::lemma_div_by_multiple(0xffff_ffff_ffff_ffff, s.len() as int);
}

/// One output row of the engine: the boundary instants of a run of
/// samples together with its rolled-up measures.
pub struct AggregatedInterval {
    pub start_time: u64,
    pub end_time: u64,
    pub values: Vec<u128>,
}

/// What [`aggregate_range`] promises of its output for the run `s`.
pub open spec fn interval_ok(
    iv: AggregatedInterval,
    strategies: Seq<Strategy>,
    s: Seq<RawSample>,
) -> bool {
    &&& iv.start_time == s[0].start_time
    &&& iv.end_time == s.last().end_time
    &&& iv.values@.len() == strategies.len()
    &&& forall|c: int|
        0 <= c < strategies.len() ==> iv.values@[c] as int == strategy_value(strategies[c], s, c)
}

/// Rolls up `samples[lo..hi]` under the given per-column strategies.
pub fn aggregate_range(
    samples: &Vec<RawSample>,
    lo: usize,
    hi: usize,
    strategies: &Vec<Strategy>,
) -> (iv: AggregatedInterval)
    requires
        lo < hi <= samples@.len(),
        samples@.len() <= MAX_SAMPLES,
        samples_wf(samples@, strategies@.len() as int),
    ensures
        interval_ok(iv, strategies@, samples@.subrange(lo as int, hi as int)),
{
    let ghost run = samples@.subrange(lo as int, hi as int);
    let ncols = strategies.len();
    let mut values: Vec<u128> = Vec::new();
    let mut c: usize = 0;
    while c < ncols
        invariant
            0 <= c <= ncols,
            lo < hi <= samples@.len(),
            samples@.len() <= MAX_SAMPLES,
            ncols == strategies@.len(),
            samples_wf(samples@, ncols as int),
            run == samples@.subrange(lo as int, hi as int),
            values@.len() == c,
            forall|k: int|
                0 <= k < c ==> values@[k] as int == strategy_value(strategies@[k], run, k),
        decreases ncols - c,
    {
        let v: u128 = match strategies[c] {
            Strategy::BoundaryFirst => samples[lo].measures[c] as u128,
            Strategy::BoundaryLast => samples[hi - 1].measures[c] as u128,
            Strategy::Cumulative => sum_range(samples, lo, hi, c),
            Strategy::Averaged => {
                let total = sum_range(samples, lo, hi, c);
                proof {
                    lemma_sum_col_bounds(run, c as int);
                }
                total / ((hi - lo) as u128)
            },
        };
        values.push(v);
        c = c + 1;
    }
    AggregatedInterval { start_time: samples[lo].start_time, end_time: samples[hi - 1].end_time, values }
}

/// Sums column `c` over `samples[lo..hi]`.
fn sum_range(samples: &Vec<RawSample>, lo: usize, hi: usize, c: usize) -> (total: u128)
    requires
        lo < hi <= samples@.len(),
        samples@.len() <= MAX_SAMPLES,
        forall|i: int|
            0 <= i < samples@.len() ==> c < (#[trigger] samples@[i]).measures@.len(),
    ensures
        total as int == sum_col(samples@.subrange(lo as int, hi as int), c as int),
{
    let ghost run = samples@.subrange(lo as int, hi as int);
    let mut total: u128 = 0;
    let mut k: usize = lo;
    while k < hi
        invariant
            lo <= k <= hi <= samples@.len(),
            samples@.len() <= MAX_SAMPLES,
            forall|i: int|
                0 <= i < samples@.len() ==> c < (#[trigger] samples@[i]).measures@.len(),
            run == samples@.subrange(lo as int, hi as int),
            total as int == sum_col(samples@.subrange(lo as int, k as int), c as int),
            total <= (k - lo) * 0xffff_ffff_ffff_ffff,
        decreases hi - k,
    {
        let ghost prefix = samples@.subrange(lo as int, k as int);
        proof {
            assert(samples@.subrange(lo as int, k as int + 1) == prefix.push(samples@[k as int]));
            assert(prefix.push(samples@[k as int]).drop_last() == prefix);
            assert((k - lo) * 0xffff_ffff_ffff_ffff + 0xffff_ffff_ffff_ffff == (k + 1 - lo)
                * 0xffff_ffff_ffff_ffff) by (nonlinear_arith);
            assert((k + 1 - lo) * 0xffff_ffff_ffff_ffff <= MAX_SAMPLES
                * 0xffff_ffff_ffff_ffff) by (nonlinear_arith)
                requires
                    k + 1 - lo <= MAX_SAMPLES,
            ;
        }
        total = total + (samples[k].measures[c] as u128);
        k = k + 1;
    }
    proof {
        assert(samples@.subrange(lo as int, hi as int) == run);
    }
    total
}

/// The indices (within the first `n` samples) where a new bucket begins:
/// index 0, and every index whose sample lies in a different bucket than
/// its predecessor.
pub open spec fn starts_upto(s: Seq<RawSample>, g: Granularity, n: int) -> Seq<int>
    decreases n,
{
    if n <= 0 {
        Seq::empty()
    } else if n == 1 {
        seq![0int]
    } else if same_bucket(s[n - 2].start_time as int, s[n - 1].start_time as int, g) {
        starts_upto(s, g, n - 1)
    } else {
        starts_upto(s, g, n - 1).push(n - 1)
    }
}

/// Where each bucket of the window begins, in ascending order.
pub open spec fn bucket_starts(s: Seq<RawSample>, g: Granularity) -> Seq<int> {
    starts_upto(s, g, s.len() as int)
}

/// The first sample index of bucket `j`, or the window length once `j`
/// runs past the last bucket; bucket `j` covers
/// `[bucket_boundary(j), bucket_boundary(j + 1))`.
pub open spec fn bucket_boundary(s: Seq<RawSample>, g: Granularity, j: int) -> int {
    let su = bucket_starts(s, g);
    if j < su.len() {
        su[j]
    } else {
        s.len() as int
    }
}

/// One past the last sample index of bucket `j`.
pub open spec fn seg_end(s: Seq<RawSample>, g: Granularity, j: int) -> int {
    bucket_boundary(s, g, j + 1)
}

/// Sample `i` lies in bucket `j`.
pub open spec fn in_bucket(s: Seq<RawSample>, g: Granularity, j: int, i: int) -> bool {
    bucket_starts(s, g)[j] <= i < seg_end(s, g, j)
}

/// How many buckets the response reports: all of them, capped by the
/// caller's maximum.
pub open spec fn reported_buckets(s: Seq<RawSample>, g: Granularity, max: int) -> int {
    if bucket_starts(s, g).len() <= max {
        bucket_starts(s, g).len() as int
    } else {
        max
    }
}

/// One past the last sample index the reported buckets cover.
pub open spec fn included_end(s: Seq<RawSample>, g: Granularity, max: int) -> int {
    bucket_boundary(s, g, reported_buckets(s, g, max))
}

pub proof fn lemma_starts_props(s: Seq<RawSample>, g: Granularity, n: int)
    requires
        0 <= n <= s.len(),
    ensures
        n == 0 ==> starts_upto(s, g, n).len() == 0,
        n > 0 ==> starts_upto(s, g, n).len() >= 1 && starts_upto(s, g, n)[0] == 0,
        forall|p: int|
            0 <= p < starts_upto(s, g, n).len() ==> 0 <= #[trigger] starts_upto(s, g, n)[p] < n,
        forall|p: int, q: int|
            0 <= p < q < starts_upto(s, g, n).len() ==> starts_upto(s, g, n)[p] < starts_upto(
                s,
                g,
                n,
            )[q],
    decreases n,
{
    if n > 1 {
        lemma_starts_props(s, g, n - 1);
    }
}

pub proof fn lemma_starts_membership(s: Seq<RawSample>, g: Granularity, n: int, i: int)
    requires
        0 < n <= s.len(),
        1 <= i < n,
    ensures
        starts_upto(s, g, n).contains(i) <==> !same_bucket(
            s[i - 1].start_time as int,
            s[i].start_time as int,
            g,
        ),
    decreases n,
{
    lemma_starts_props(s, g, n - 1);
    let prev = starts_upto(s, g, n - 1);
    let cur = starts_upto(s, g, n);
    if i < n - 1 {
        lemma_starts_membership(s, g, n - 1, i);
        if prev.contains(i) {
            let p = choose|p: int| 0 <= p < prev.len() && prev[p] == i;
            assert(cur[p] == i);
            assert(cur.contains(i));
        }
        if cur.contains(i) {
            let p = choose|p: int| 0 <= p < cur.len() && cur[p] == i;
            assert(p < prev.len());
            assert(prev.contains(i));
        }
    } else {
        if same_bucket(s[n - 2].start_time as int, s[n - 1].start_time as int, g) {
            if cur.contains(i) {
                let p = choose|p: int| 0 <= p < cur.len() && cur[p] == i;
                assert(prev[p] < n - 1);
            }
        } else {
            assert(cur[cur.len() - 1] == n - 1);
            assert(cur.contains(i));
        }
    }
}

/// No bucket starts strictly inside another bucket's span.
proof fn lemma_no_start_inside(s: Seq<RawSample>, g: Granularity, j: int, i: int)
    requires
        s.len() > 0,
        0 <= j < bucket_starts(s, g).len(),
        bucket_starts(s, g)[j] < i < seg_end(s, g, j),
    ensures
        !bucket_starts(s, g).contains(i),
{
    lemma_starts_props(s, g, s.len() as int);
    let su = bucket_starts(s, g);
    if su.contains(i) {
        let p = choose|p: int| 0 <= p < su.len() && su[p] == i;
        if p <= j {
            assert(su[p] <= su[j]);
        } else {
            assert(su[j + 1] <= su[p]);
        }
    }
}

/// Every sample of a bucket lies in the same calendar bucket as the
/// bucket's first sample.
pub proof fn lemma_segment_same_bucket(s: Seq<RawSample>, g: Granularity, j: int, i: int)
    requires
        s.len() > 0,
        0 <= j < bucket_starts(s, g).len(),
        bucket_starts(s, g)[j] <= i < seg_end(s, g, j),
    ensures
        same_bucket(s[bucket_starts(s, g)[j]].start_time as int, s[i].start_time as int, g),
    decreases i,
{
    lemma_starts_props(s, g, s.len() as int);
    let su = bucket_starts(s, g);
    if i > su[j] {
        lemma_no_start_inside(s, g, j, i);
        lemma_starts_membership(s, g, s.len() as int, i);
        lemma_segment_same_bucket(s, g, j, i - 1);
    }
}

/// Bucket keys strictly increase from one bucket to the next.
pub proof fn lemma_bucket_keys_increase(s: Seq<RawSample>, g: Granularity, j1: int, j2: int)
    requires
        sorted_by_start(s),
        0 <= j1 < j2 < bucket_starts(s, g).len(),
    ensures
        the_key(s[bucket_starts(s, g)[j1]].start_time as int, g) < the_key(
            s[bucket_starts(s, g)[j2]].start_time as int,
            g,
        ),
{
    lemma_starts_props(s, g, s.len() as int);
    let su = bucket_starts(s, g);
    let b1 = su[j1];
    let b2 = su[j2];
    assert(su[0] <= b1 < b2);
    assert(su.contains(b2));
    lemma_starts_membership(s, g, s.len() as int, b2);
    lemma_the_key_ordered(s[b1].start_time as int, s[b2 - 1].start_time as int, g);
    lemma_the_key_ordered(s[b2 - 1].start_time as int, s[b2].start_time as int, g);
}

proof fn find_bucket_idx(s: Seq<RawSample>, g: Granularity, i: int, p: int) -> (j: int)
    requires
        0 <= i < s.len(),
        0 <= p < bucket_starts(s, g).len(),
        bucket_starts(s, g)[p] <= i,
    ensures
        p <= j < bucket_starts(s, g).len(),
        in_bucket(s, g, j, i),
    decreases bucket_starts(s, g).len() - p,
{
    let su = bucket_starts(s, g);
    if p + 1 < su.len() && su[p + 1] <= i {
        find_bucket_idx(s, g, i, p + 1)
    } else {
        p
    }
}

/// Law: under one granularity the buckets partition the window — every
/// sample belongs to exactly one bucket, and it is the bucket that
/// contains the sample's own start instant.
pub proof fn lemma_partition_complete_exclusive(s: Seq<RawSample>, g: Granularity, i: int)
    requires
        0 <= i < s.len(),
    ensures
        exists|j: int|
            0 <= j < bucket_starts(s, g).len() && #[trigger] in_bucket(s, g, j, i),
        forall|j1: int, j2: int|
            0 <= j1 < bucket_starts(s, g).len() && 0 <= j2 < bucket_starts(s, g).len()
                && #[trigger] in_bucket(s, g, j1, i) && #[trigger] in_bucket(s, g, j2, i) ==> j1
                == j2,
        forall|j: int|
            0 <= j < bucket_starts(s, g).len() && #[trigger] in_bucket(s, g, j, i) ==> same_bucket(
                s[bucket_starts(s, g)[j]].start_time as int,
                s[i].start_time as int,
                g,
            ),
{
    lemma_starts_props(s, g, s.len() as int);
    let su = bucket_starts(s, g);
    let j = find_bucket_idx(s, g, i, 0);
    assert(0 <= j < su.len() && in_bucket(s, g, j, i));
    assert forall|j1: int, j2: int|
        0 <= j1 < su.len() && 0 <= j2 < su.len() && #[trigger] in_bucket(s, g, j1, i)
            && #[trigger] in_bucket(s, g, j2, i) implies j1 == j2 by {
        if j1 < j2 {
            assert(su[j1 + 1] <= su[j2]);
        }
        if j2 < j1 {
            assert(su[j2 + 1] <= su[j1]);
        }
    }
    assert forall|j0: int|
        0 <= j0 < su.len() && #[trigger] in_bucket(s, g, j0, i) implies same_bucket(
        s[su[j0]].start_time as int,
        s[i].start_time as int,
        g,
    ) by {
        lemma_segment_same_bucket(s, g, j0, i);
    }
}

/// Law: in every bucket the first boundary sample starts no later than
/// the last boundary sample, and a one-sample bucket has that sample as
/// both boundaries.
pub proof fn lemma_boundary_order(s: Seq<RawSample>, g: Granularity, j: int)
    requires
        sorted_by_start(s),
        s.len() > 0,
        0 <= j < bucket_starts(s, g).len(),
    ensures
        s[bucket_starts(s, g)[j]].start_time <= s[seg_end(s, g, j) - 1].start_time,
        seg_end(s, g, j) - bucket_starts(s, g)[j] == 1 ==> bucket_starts(s, g)[j] == seg_end(
            s,
            g,
            j,
        ) - 1,
{
    lemma_starts_props(s, g, s.len() as int);
}

/// The distinct bucket keys that a window's samples fall in.
pub open spec fn window_keys(s: Seq<RawSample>, g: Granularity) -> Set<int> {
    s.map_values(|x: RawSample| the_key(x.start_time as int, g)).to_set()
}

/// Law: a window has one bucket per distinct bucket key among its
/// samples — with gapless samples, one bucket per calendar period
/// spanned (before the caller's cap is applied).
pub proof fn lemma_bucket_count_is_distinct_keys(s: Seq<RawSample>, g: Granularity)
    requires
        sorted_by_start(s),
    ensures
        window_keys(s, g).finite(),
        window_keys(s, g).len() == bucket_starts(s, g).len(),
{
    broadcast use vstd::seq_lib::seq_to_set_is_finite;

    let all = s.map_values(|x: RawSample| the_key(x.start_time as int, g));
    let su = bucket_starts(s, g);
    lemma_starts_props(s, g, s.len() as int);
    let sk = su.map_values(|b: int| the_key(s[b].start_time as int, g));
    assert forall|p: int, q: int| 0 <= p < q < sk.len() implies sk[p] != sk[q] by {
        lemma_bucket_keys_increase(s, g, p, q);
    }
    assert(sk.no_duplicates());
    sk.unique_seq_to_set();
    assert forall|k: int| all.to_set().contains(k) implies sk.to_set().contains(k) by {
        let i = choose|i: int| 0 <= i < all.len() && all[i] == k;
        lemma_partition_complete_exclusive(s, g, i);
        let j = choose|j: int| 0 <= j < su.len() && #[trigger] in_bucket(s, g, j, i);
        assert(same_bucket(s[su[j]].start_time as int, s[i].start_time as int, g));
        assert(sk[j] == k);
    }
    assert forall|k: int| sk.to_set().contains(k) implies all.to_set().contains(k) by {
        let j = choose|j: int| 0 <= j < sk.len() && sk[j] == k;
        assert(all[su[j]] == k);
    }
    assert(all.to_set() =~= sk.to_set());
}

/// The sum of column `c` over the first `j` buckets, bucket by bucket.
pub open spec fn buckets_sum_upto(s: Seq<RawSample>, g: Granularity, c: int, j: int) -> int
    decreases j,
{
    if j <= 0 {
        0
    } else {
        buckets_sum_upto(s, g, c, j - 1) + sum_col(
            s.subrange(bucket_starts(s, g)[j - 1], seg_end(s, g, j - 1)),
            c,
        )
    }
}

/// Law: cumulative measures add up — summing a column bucket by bucket
/// over the first `m` buckets gives exactly the column's sum over the
/// samples those buckets cover, with no double counting and no omission.
pub proof fn lemma_window_sum_is_bucket_sums(s: Seq<RawSample>, g: Granularity, c: int, m: int)
    requires
        0 <= m <= bucket_starts(s, g).len(),
    ensures
        buckets_sum_upto(s, g, c, m) == sum_col(s.take(bucket_boundary(s, g, m)), c),
    decreases m,
{
    lemma_starts_props(s, g, s.len() as int);
    let su = bucket_starts(s, g);
    if m == 0 {
        assert(s.take(bucket_boundary(s, g, 0)).len() == 0);
    } else {
        lemma_window_sum_is_bucket_sums(s, g, c, m - 1);
        let lo = su[m - 1];
        let hi = bucket_boundary(s, g, m);
        assert(lo < hi <= s.len());
        lemma_sum_col_split(s.take(hi), lo, c);
        assert(s.take(hi).take(lo) == s.take(lo));
        assert(s.take(hi).skip(lo) == s.subrange(lo, hi));
        assert(seg_end(s, g, m - 1) == hi);
    }
}

/// Bucket structure depends on start times alone: two windows with the
/// same start times bucket identically.
pub proof fn lemma_starts_only_times(
    s1: Seq<RawSample>,
    s2: Seq<RawSample>,
    g: Granularity,
    n: int,
)
    requires
        s1.len() == s2.len(),
        forall|i: int| 0 <= i < s1.len() ==> s1[i].start_time == (#[trigger] s2[i]).start_time,
        0 <= n <= s1.len(),
    ensures
        starts_upto(s1, g, n) == starts_upto(s2, g, n),
    decreases n,
{
    if n > 1 {
        lemma_starts_only_times(s1, s2, g, n - 1);
    }
}

/// Finds where each bucket of the (sorted) window begins.
pub fn partition_starts(samples: &Vec<RawSample>, g: Granularity) -> (bs: Vec<usize>)
    requires
        forall|i: int|
            0 <= i < samples@.len() ==> (#[trigger] samples@[i]).start_time
                <= crate::calendar::MAX_TIMESTAMP,
    ensures
        bs@.map_values(|x: usize| x as int) == bucket_starts(samples@, g),
{
    let n = samples.len();
    let mut bs: Vec<usize> = Vec::new();
    if n == 0 {
        assert(bs@.map_values(|x: usize| x as int) =~= bucket_starts(samples@, g));
        return bs;
    }
    bs.push(0);
    let mut prev = bucket_key(samples[0].start_time, g);
    let mut i: usize = 1;
    assert(bs@.map_values(|x: usize| x as int) =~= starts_upto(samples@, g, 1));
    while i < n
        invariant
            1 <= i <= n,
            n == samples@.len(),
            forall|k: int|
                0 <= k < samples@.len() ==> (#[trigger] samples@[k]).start_time
                    <= crate::calendar::MAX_TIMESTAMP,
            prev == the_key(samples@[i - 1].start_time as int, g),
            bs@.map_values(|x: usize| x as int) == starts_upto(samples@, g, i as int),
        decreases n - i,
    {
        let ghost old_bs = bs@;
        let k = bucket_key(samples[i].start_time, g);
        if k != prev {
            bs.push(i);
            proof {
                assert(bs@.map_values(|x: usize| x as int) =~= old_bs.map_values(
                    |x: usize| x as int,
                ).push(i as int));
            }
        }
        prev = k;
        i = i + 1;
    }
    bs
}

} // verus!

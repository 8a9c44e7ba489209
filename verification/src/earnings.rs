//! The earnings variant: the window-level measures are flows, summed
//! across each bucket, and each sample carries per-pool sub-measures
//! that are summed per `(bucket, pool)` and then merged across buckets
//! by pool alone for the window summary. Pools are keyed by an integer
//! pool identifier and reported in order of first occurrence. A bucket's
//! node count is its number of distinct pools; the window's
//! `avg_node_count` is the plain arithmetic mean of those counts over
//! the reported buckets, one weight per bucket.

use vstd::prelude::*;
use crate::engine::bucket_starts;
use crate::engine::included_end;
use crate::engine::lemma_starts_only_times;
use crate::engine::lemma_starts_props;
use crate::engine::partition_starts;
use crate::engine::reported_buckets;
use crate::engine::seg_end;
use crate::errors::HistoryError;
use crate::granularity::Granularity;
use crate::numtext::dec_digits;
use crate::numtext::fixed_str;
use crate::numtext::fixed_to_dec_string;
use crate::numtext::u128_to_dec_string;
use crate::sample::MAX_SAMPLES;
use crate::sample::RawSample;
use crate::calendar::MAX_TIMESTAMP;

verus! {

/// Most per-pool rows one sample can carry.
pub const MAX_POOLS_PER_SAMPLE: usize = 1024;

/// One pool's sub-measures within one sample.
pub struct PoolRow {
    pub pool: u64,
    pub asset_liquidity_fees: u64,
    pub rune_liquidity_fees: u64,
    pub total_liquidity_fees_rune: u64,
    pub saver_earning: u64,
    pub rewards: u64,
    pub earnings: u64,
}

/// One ingested earnings row: window-level measures plus the per-pool
/// sub-measures observed in that period. The rune price is fixed point
/// at scale 10^8; everything else is a plain amount.
pub struct EarningsSample {
    pub start_time: u64,
    pub end_time: u64,
    pub liquidity_fees: u64,
    pub block_rewards: u64,
    pub earnings: u64,
    pub bonding_earnings: u64,
    pub liquidity_earnings: u64,
    pub rune_price_usd: u64,
    pub pools: Vec<PoolRow>,
}

pub open spec fn ea_wf(s: EarningsSample) -> bool {
    &&& s.start_time <= s.end_time
    &&& s.start_time <= MAX_TIMESTAMP
    &&& s.pools@.len() <= MAX_POOLS_PER_SAMPLE
}

pub open spec fn ea_samples_wf(s: Seq<EarningsSample>) -> bool {
    forall|i: int| 0 <= i < s.len() ==> ea_wf(#[trigger] s[i])
}

pub open spec fn ea_sorted(s: Seq<EarningsSample>) -> bool {
    forall|i: int, j: int| 0 <= i <= j < s.len() ==> s[i].start_time <= s[j].start_time
}

/// Checks that an earnings window is sorted by start time and well
/// formed; the aggregation entry point requires both.
pub fn check_earnings_samples(samples: &Vec<EarningsSample>) -> (ok: bool)
    ensures
        ok == (ea_samples_wf(samples@) && ea_sorted(samples@)),
{
    let n = samples.len();
    let mut i: usize = 0;
    while i < n
        invariant
            0 <= i <= n,
            n == samples@.len(),
            forall|k: int| 0 <= k < i ==> ea_wf(#[trigger] samples@[k]),
            forall|k: int, l: int|
                0 <= k <= l < i ==> samples@[k].start_time <= samples@[l].start_time,
        decreases n - i,
    {
        let s = &samples[i];
        if !(s.start_time <= s.end_time && s.start_time <= MAX_TIMESTAMP && s.pools.len()
            <= MAX_POOLS_PER_SAMPLE) {
            return false;
        }
        if i > 0 && samples[i - 1].start_time > s.start_time {
            return false;
        }
        i = i + 1;
    }
    true
}

/// The timestamps of an earnings window, in the shape the shared bucket
/// partitioner reads.
pub open spec fn ea_shadow(s: Seq<EarningsSample>) -> Seq<RawSample> {
    s.map_values(
        |x: EarningsSample|
            RawSample { start_time: x.start_time, end_time: x.end_time, measures: arbitrary() },
    )
}

/// The window-level measure `c` of one sample.
pub open spec fn top_val(s: EarningsSample, c: int) -> int {
    if c == 0 {
        s.liquidity_fees as int
    } else if c == 1 {
        s.block_rewards as int
    } else if c == 2 {
        s.earnings as int
    } else if c == 3 {
        s.bonding_earnings as int
    } else {
        s.liquidity_earnings as int
    }
}

/// The sum of window-level measure `c` over `s[lo..hi]`.
pub open spec fn top_sum(s: Seq<EarningsSample>, lo: int, hi: int, c: int) -> int
    decreases hi - lo,
{
    if hi <= lo {
        0
    } else {
        top_sum(s, lo, hi - 1, c) + top_val(s[hi - 1], c)
    }
}

/// The pool sub-measure `c` of one pool row.
pub open spec fn row_val(r: PoolRow, c: int) -> int {
    if c == 0 {
        r.asset_liquidity_fees as int
    } else if c == 1 {
        r.rune_liquidity_fees as int
    } else if c == 2 {
        r.total_liquidity_fees_rune as int
    } else if c == 3 {
        r.saver_earning as int
    } else if c == 4 {
        r.rewards as int
    } else {
        r.earnings as int
    }
}

/// The sum of sub-measure `c` over the rows of one sample keyed `pool`.
pub open spec fn rows_pool_sum(rows: Seq<PoolRow>, pool: u64, c: int) -> int
    decreases rows.len(),
{
    if rows.len() == 0 {
        0
    } else {
        rows_pool_sum(rows.drop_last(), pool, c) + if rows.last().pool == pool {
            row_val(rows.last(), c)
        } else {
            0
        }
    }
}

/// The sum of sub-measure `c` over every row keyed `pool` in `s[lo..hi]`.
pub open spec fn range_pool_sum(s: Seq<EarningsSample>, lo: int, hi: int, pool: u64, c: int) -> int
    decreases hi - lo,
{
    if hi <= lo {
        0
    } else {
        range_pool_sum(s, lo, hi - 1, pool, c) + rows_pool_sum(s[hi - 1].pools@, pool, c)
    }
}

pub open spec fn push_unique(ks: Seq<u64>, k: u64) -> Seq<u64> {
    if ks.contains(k) {
        ks
    } else {
        ks.push(k)
    }
}

/// The keys accumulated after reading the first `j` rows of one sample.
pub open spec fn keys_after_rows(ks: Seq<u64>, rows: Seq<PoolRow>, j: int) -> Seq<u64>
    decreases j,
{
    if j <= 0 {
        ks
    } else {
        push_unique(keys_after_rows(ks, rows, j - 1), rows[j - 1].pool)
    }
}

/// The pool keys of `s[lo..i]`, in order of first occurrence.
pub open spec fn pool_keys_in(s: Seq<EarningsSample>, lo: int, i: int) -> Seq<u64>
    decreases i - lo,
{
    if i <= lo {
        Seq::empty()
    } else {
        keys_after_rows(pool_keys_in(s, lo, i - 1), s[i - 1].pools@, s[i - 1].pools@.len() as int)
    }
}

pub open spec fn distinct_keys(ks: Seq<u64>) -> bool {
    forall|p: int, q: int| 0 <= p < q < ks.len() ==> ks[p] != ks[q]
}

proof fn lemma_keys_after_rows_facts(ks: Seq<u64>, rows: Seq<PoolRow>, j: int)
    requires
        0 <= j <= rows.len(),
        distinct_keys(ks),
    ensures
        distinct_keys(keys_after_rows(ks, rows, j)),
        ks.len() <= keys_after_rows(ks, rows, j).len() <= ks.len() + j,
        forall|p: int| 0 <= p < ks.len() ==> keys_after_rows(ks, rows, j)[p] == ks[p],
        forall|k: u64|
            keys_after_rows(ks, rows, j).contains(k) <==> ks.contains(k) || exists|p: int|
                0 <= p < j && (#[trigger] rows[p]).pool == k,
    decreases j,
{
    if j > 0 {
        lemma_keys_after_rows_facts(ks, rows, j - 1);
        let prev = keys_after_rows(ks, rows, j - 1);
        let cur = keys_after_rows(ks, rows, j);
        let k0 = rows[j - 1].pool;
        if !prev.contains(k0) {
            assert(cur == prev.push(k0));
            assert forall|k: u64| #[trigger] cur.contains(k) implies prev.contains(k) || k
                == k0 by {
                let p = choose|p: int| 0 <= p < cur.len() && cur[p] == k;
                if p < prev.len() {
                    assert(prev[p] == k);
                }
            }
            assert(cur[prev.len() as int] == k0);
            assert(cur.contains(k0));
            assert forall|k: u64| prev.contains(k) implies cur.contains(k) by {
                let p = choose|p: int| 0 <= p < prev.len() && prev[p] == k;
                assert(cur[p] == k);
            }
            assert forall|p: int, q: int| 0 <= p < q < cur.len() implies cur[p] != cur[q] by {
                if q == cur.len() - 1 {
                    assert(prev[p] == cur[p]);
                    assert(prev.contains(cur[p]));
                }
            }
        }
        assert forall|k: u64| #[trigger] cur.contains(k) implies ks.contains(k) || exists|p: int|
            0 <= p < j && (#[trigger] rows[p]).pool == k by {
            if !ks.contains(k) {
                if prev.contains(k) {
                    let p = choose|p: int| 0 <= p < j - 1 && (#[trigger] rows[p]).pool == k;
                    assert(rows[p].pool == k);
                } else {
                    assert(rows[j - 1].pool == k);
                }
            }
        }
        assert forall|k: u64|
            ks.contains(k) || exists|p: int|
                0 <= p < j && (#[trigger] rows[p]).pool == k implies cur.contains(k) by {
            if !ks.contains(k) {
                let p = choose|p: int| 0 <= p < j && (#[trigger] rows[p]).pool == k;
                if p < j - 1 {
                    assert(prev.contains(k));
                }
            }
        }
    }
}

proof fn lemma_pool_keys_facts(s: Seq<EarningsSample>, lo: int, i: int)
    requires
        0 <= lo <= i <= s.len(),
        ea_samples_wf(s),
    ensures
        distinct_keys(pool_keys_in(s, lo, i)),
        pool_keys_in(s, lo, i).len() <= (i - lo) * MAX_POOLS_PER_SAMPLE,
        forall|k: u64|
            pool_keys_in(s, lo, i).contains(k) <==> exists|t: int, p: int|
                lo <= t < i && 0 <= p < s[t].pools@.len() && (#[trigger] s[t].pools@[p]).pool == k,
    decreases i - lo,
{
    if i > lo {
        lemma_pool_keys_facts(s, lo, i - 1);
        let prev = pool_keys_in(s, lo, i - 1);
        let cur = pool_keys_in(s, lo, i);
        let rows = s[i - 1].pools@;
        assert(ea_wf(s[i - 1]));
        lemma_keys_after_rows_facts(prev, rows, rows.len() as int);
        assert((i - 1 - lo) * MAX_POOLS_PER_SAMPLE + MAX_POOLS_PER_SAMPLE == (i - lo)
            * MAX_POOLS_PER_SAMPLE) by (nonlinear_arith);
        assert forall|k: u64| #[trigger] cur.contains(k) implies exists|t: int, p: int|
            lo <= t < i && 0 <= p < s[t].pools@.len() && (#[trigger] s[t].pools@[p]).pool == k by {
            if prev.contains(k) {
                let (t, p) = choose|t: int, p: int|
                    lo <= t < i - 1 && 0 <= p < s[t].pools@.len() && (#[trigger] s[t].pools@[p]).pool
                        == k;
                assert(s[t].pools@[p].pool == k);
            } else {
                let p = choose|p: int| 0 <= p < rows.len() && (#[trigger] rows[p]).pool == k;
                assert(s[i - 1].pools@[p].pool == k);
            }
        }
        assert forall|k: u64|
            exists|t: int, p: int|
                lo <= t < i && 0 <= p < s[t].pools@.len() && (#[trigger] s[t].pools@[p]).pool
                    == k implies cur.contains(k) by {
            let (t, p) = choose|t: int, p: int|
                lo <= t < i && 0 <= p < s[t].pools@.len() && (#[trigger] s[t].pools@[p]).pool == k;
            if t < i - 1 {
                assert(prev.contains(k));
            } else {
                assert(rows[p].pool == k);
            }
        }
    }
}

proof fn lemma_rows_pool_sum_absent(rows: Seq<PoolRow>, j: int, pool: u64, c: int)
    requires
        0 <= j <= rows.len(),
        forall|p: int| 0 <= p < j ==> (#[trigger] rows[p]).pool != pool,
    ensures
        rows_pool_sum(rows.take(j), pool, c) == 0,
    decreases j,
{
    if j > 0 {
        lemma_rows_pool_sum_absent(rows, j - 1, pool, c);
        assert(rows.take(j).drop_last() =~= rows.take(j - 1));
        assert(rows.take(j).last() == rows[j - 1]);
    }
}

proof fn lemma_range_pool_sum_absent(s: Seq<EarningsSample>, lo: int, i: int, pool: u64, c: int)
    requires
        0 <= lo <= i <= s.len(),
        forall|t: int, p: int|
            lo <= t < i && 0 <= p < s[t].pools@.len() ==> (#[trigger] s[t].pools@[p]).pool != pool,
    ensures
        range_pool_sum(s, lo, i, pool, c) == 0,
    decreases i - lo,
{
    if i > lo {
        lemma_range_pool_sum_absent(s, lo, i - 1, pool, c);
        let rows = s[i - 1].pools@;
        assert(forall|p: int| 0 <= p < rows.len() ==> (#[trigger] rows[p]).pool != pool);
        lemma_rows_pool_sum_absent(rows, rows.len() as int, pool, c);
        assert(rows.take(rows.len() as int) =~= rows);
    }
}

proof fn lemma_rows_pool_sum_bounds(rows: Seq<PoolRow>, pool: u64, c: int)
    ensures
        0 <= rows_pool_sum(rows, pool, c) <= rows.len() * 0xffff_ffff_ffff_ffff,
    decreases rows.len(),
{
    if rows.len() > 0 {
        lemma_rows_pool_sum_bounds(rows.drop_last(), pool, c);
        assert((rows.len() - 1) * 0xffff_ffff_ffff_ffff + 0xffff_ffff_ffff_ffff == rows.len()
            * 0xffff_ffff_ffff_ffff) by (nonlinear_arith);
    }
}

proof fn lemma_range_pool_sum_bounds(s: Seq<EarningsSample>, lo: int, i: int, pool: u64, c: int)
    requires
        0 <= lo <= i <= s.len(),
        ea_samples_wf(s),
    ensures
        0 <= range_pool_sum(s, lo, i, pool, c) <= (i - lo) * (MAX_POOLS_PER_SAMPLE
            * 0xffff_ffff_ffff_ffff),
    decreases i - lo,
{
    if i > lo {
        lemma_range_pool_sum_bounds(s, lo, i - 1, pool, c);
        let rows = s[i - 1].pools@;
        assert(ea_wf(s[i - 1]));
        lemma_rows_pool_sum_bounds(rows, pool, c);
        assert(rows.len() * 0xffff_ffff_ffff_ffff <= MAX_POOLS_PER_SAMPLE
            * 0xffff_ffff_ffff_ffff) by (nonlinear_arith)
            requires
                0 <= rows.len() <= MAX_POOLS_PER_SAMPLE,
        ;
        assert((i - 1 - lo) * (MAX_POOLS_PER_SAMPLE * 0xffff_ffff_ffff_ffff)
            + MAX_POOLS_PER_SAMPLE * 0xffff_ffff_ffff_ffff == (i - lo) * (MAX_POOLS_PER_SAMPLE
            * 0xffff_ffff_ffff_ffff)) by (nonlinear_arith);
    }
}

/// Law: pool sub-aggregates add up across a split of the window just as
/// the window-level cumulative measures do — merging per-bucket pool
/// sums by key gives the window's per-pool sums.
pub proof fn lemma_pool_sum_split(
    s: Seq<EarningsSample>,
    lo: int,
    mid: int,
    hi: int,
    pool: u64,
    c: int,
)
    requires
        0 <= lo <= mid <= hi <= s.len(),
    ensures
        range_pool_sum(s, lo, hi, pool, c) == range_pool_sum(s, lo, mid, pool, c) + range_pool_sum(
            s,
            mid,
            hi,
            pool,
            c,
        ),
    decreases hi - mid,
{
    if hi > mid {
        lemma_pool_sum_split(s, lo, mid, hi - 1, pool, c);
    }
}

/// Law: window-level cumulative measures add up across a split of the
/// window, so the window summary equals the sum of the per-bucket sums.
pub proof fn lemma_top_sum_split(s: Seq<EarningsSample>, lo: int, mid: int, hi: int, c: int)
    requires
        0 <= lo <= mid <= hi <= s.len(),
    ensures
        top_sum(s, lo, hi, c) == top_sum(s, lo, mid, c) + top_sum(s, mid, hi, c),
    decreases hi - mid,
{
    if hi > mid {
        lemma_top_sum_split(s, lo, mid, hi - 1, c);
    }
}

/// The sum of window-level measure `c` over the first `j` buckets,
/// bucket by bucket.
pub open spec fn ea_buckets_top_sum_upto(
    s: Seq<EarningsSample>,
    g: Granularity,
    c: int,
    j: int,
) -> int
    decreases j,
{
    if j <= 0 {
        0
    } else {
        ea_buckets_top_sum_upto(s, g, c, j - 1) + top_sum(
            s,
            bucket_starts(ea_shadow(s), g)[j - 1],
            seg_end(ea_shadow(s), g, j - 1),
            c,
        )
    }
}

/// Law: an earnings window summary's cumulative measure equals the sum
/// of the same measure across the reported buckets — no double
/// counting, no omission.
pub proof fn lemma_earnings_window_totals(s: Seq<EarningsSample>, g: Granularity, max: int, c: int)
    requires
        s.len() > 0,
        0 <= max,
    ensures
        top_sum(s, 0, included_end(ea_shadow(s), g, max), c) == ea_buckets_top_sum_upto(
            s,
            g,
            c,
            reported_buckets(ea_shadow(s), g, max),
        ),
{
    lemma_starts_props(ea_shadow(s), g, ea_shadow(s).len() as int);
    lemma_ea_prefix_sum(s, g, c, reported_buckets(ea_shadow(s), g, max));
}

proof fn lemma_ea_prefix_sum(s: Seq<EarningsSample>, g: Granularity, c: int, m: int)
    requires
        0 <= m <= bucket_starts(ea_shadow(s), g).len(),
    ensures
        ea_buckets_top_sum_upto(s, g, c, m) == top_sum(
            s,
            0,
            crate::engine::bucket_boundary(ea_shadow(s), g, m),
            c,
        ),
    decreases m,
{
    let sh = ea_shadow(s);
    crate::engine::lemma_starts_props(sh, g, sh.len() as int);
    if m > 0 {
        lemma_ea_prefix_sum(s, g, c, m - 1);
        let lo = bucket_starts(sh, g)[m - 1];
        let hi = crate::engine::bucket_boundary(sh, g, m);
        lemma_top_sum_split(s, 0, lo, hi, c);
        assert(seg_end(sh, g, m - 1) == hi);
    }
}

/// One merged per-pool aggregate.
struct PoolAcc {
    pool: u64,
    asset_liquidity_fees: u128,
    rune_liquidity_fees: u128,
    total_liquidity_fees_rune: u128,
    saver_earning: u128,
    rewards: u128,
    earnings: u128,
}

spec fn acc_val(a: PoolAcc, c: int) -> int {
    if c == 0 {
        a.asset_liquidity_fees as int
    } else if c == 1 {
        a.rune_liquidity_fees as int
    } else if c == 2 {
        a.total_liquidity_fees_rune as int
    } else if c == 3 {
        a.saver_earning as int
    } else if c == 4 {
        a.rewards as int
    } else {
        a.earnings as int
    }
}

fn find_pool(out: &Vec<PoolAcc>, pool: u64) -> (r: Option<usize>)
    ensures
        match r {
            Some(p) => p < out@.len() && out@[p as int].pool == pool,
            None => forall|q: int| 0 <= q < out@.len() ==> (#[trigger] out@[q]).pool != pool,
        },
{
    let mut q: usize = 0;
    while q < out.len()
        invariant
            0 <= q <= out@.len(),
            forall|p: int| 0 <= p < q ==> (#[trigger] out@[p]).pool != pool,
        decreases out@.len() - q,
    {
        if out[q].pool == pool {
            return Some(q);
        }
        q = q + 1;
    }
    None
}

/// Merges the pool rows of `samples[lo..hi]` by pool key: one entry per
/// key, in order of first occurrence, each sub-measure summed.
fn merge_pool_range(samples: &Vec<EarningsSample>, lo: usize, hi: usize) -> (out: Vec<PoolAcc>)
    requires
        lo <= hi <= samples@.len(),
        samples@.len() <= MAX_SAMPLES,
        ea_samples_wf(samples@),
    ensures
        out@.map_values(|a: PoolAcc| a.pool) == pool_keys_in(samples@, lo as int, hi as int),
        forall|p: int, c: int|
            0 <= p < out@.len() && 0 <= c < 6 ==> #[trigger] acc_val(out@[p], c) == range_pool_sum(
                samples@,
                lo as int,
                hi as int,
                out@[p].pool,
                c,
            ),
{
    let ghost s = samples@;
    let mut out: Vec<PoolAcc> = Vec::new();
    let mut i: usize = lo;
    assert(out@.map_values(|a: PoolAcc| a.pool) =~= pool_keys_in(s, lo as int, lo as int));
    while i < hi
        invariant
            lo <= i <= hi <= s.len(),
            s == samples@,
            s.len() <= MAX_SAMPLES,
            ea_samples_wf(s),
            out@.map_values(|a: PoolAcc| a.pool) == pool_keys_in(s, lo as int, i as int),
            forall|p: int, c: int|
                0 <= p < out@.len() && 0 <= c < 6 ==> #[trigger] acc_val(out@[p], c) == range_pool_sum(
                    s,
                    lo as int,
                    i as int,
                    out@[p].pool,
                    c,
                ),
        decreases hi - i,
    {
        let ghost keys_before = pool_keys_in(s, lo as int, i as int);
        let nrows = samples[i].pools.len();
        let ghost rows = s[i as int].pools@;
        let mut j: usize = 0;
        while j < nrows
            invariant
                lo <= i < hi <= s.len(),
                s == samples@,
                s.len() <= MAX_SAMPLES,
                ea_samples_wf(s),
                0 <= j <= nrows,
                nrows == rows.len(),
                rows == s[i as int].pools@,
                keys_before == pool_keys_in(s, lo as int, i as int),
                out@.map_values(|a: PoolAcc| a.pool) == keys_after_rows(
                    keys_before,
                    rows,
                    j as int,
                ),
                forall|p: int, c: int|
                    0 <= p < out@.len() && 0 <= c < 6 ==> #[trigger] acc_val(out@[p], c) == range_pool_sum(
                        s,
                        lo as int,
                        i as int,
                        out@[p].pool,
                        c,
                    ) + rows_pool_sum(rows.take(j as int), out@[p].pool, c),
            decreases nrows - j,
        {
            let ghost out_before = out@;
            let row = &samples[i].pools[j];
            let ghost k0 = row.pool;
            proof {
                lemma_pool_keys_facts(s, lo as int, i as int);
                lemma_keys_after_rows_facts(keys_before, rows, j as int);
                assert(rows.take(j as int + 1).drop_last() =~= rows.take(j as int));
                assert(rows.take(j as int + 1).last() == rows[j as int]);
            }
            let found = find_pool(&out, row.pool);
            match found {
                Some(pos) => {
                    proof {
                        lemma_range_pool_sum_bounds(s, lo as int, i as int, k0, 0);
                        lemma_range_pool_sum_bounds(s, lo as int, i as int, k0, 1);
                        lemma_range_pool_sum_bounds(s, lo as int, i as int, k0, 2);
                        lemma_range_pool_sum_bounds(s, lo as int, i as int, k0, 3);
                        lemma_range_pool_sum_bounds(s, lo as int, i as int, k0, 4);
                        lemma_range_pool_sum_bounds(s, lo as int, i as int, k0, 5);
                        lemma_rows_pool_sum_bounds(rows.take(j as int), k0, 0);
                        lemma_rows_pool_sum_bounds(rows.take(j as int), k0, 1);
                        lemma_rows_pool_sum_bounds(rows.take(j as int), k0, 2);
                        lemma_rows_pool_sum_bounds(rows.take(j as int), k0, 3);
                        lemma_rows_pool_sum_bounds(rows.take(j as int), k0, 4);
                        lemma_rows_pool_sum_bounds(rows.take(j as int), k0, 5);
                        assert((i - lo) * (MAX_POOLS_PER_SAMPLE as int * 0xffff_ffff_ffff_ffff)
                            <= MAX_SAMPLES as int * (MAX_POOLS_PER_SAMPLE as int
                            * 0xffff_ffff_ffff_ffff)) by (nonlinear_arith)
                            requires
                                0 <= i - lo <= MAX_SAMPLES as int,
                        ;
                        assert(rows.take(j as int).len() * 0xffff_ffff_ffff_ffff
                            <= MAX_POOLS_PER_SAMPLE as int * 0xffff_ffff_ffff_ffff)
                            by (nonlinear_arith)
                            requires
                                0 <= rows.take(j as int).len() <= MAX_POOLS_PER_SAMPLE as int,
                        ;
                        assert(out@[pos as int].pool == k0);
                        assert(acc_val(out@[pos as int], 0) == out@[pos as int].asset_liquidity_fees as int);
                        assert(acc_val(out@[pos as int], 1) == out@[pos as int].rune_liquidity_fees as int);
                        assert(acc_val(out@[pos as int], 2) == out@[pos as int].total_liquidity_fees_rune as int);
                        assert(acc_val(out@[pos as int], 3) == out@[pos as int].saver_earning as int);
                        assert(acc_val(out@[pos as int], 4) == out@[pos as int].rewards as int);
                        assert(acc_val(out@[pos as int], 5) == out@[pos as int].earnings as int);
                        assert(forall|c: int|
                            0 <= c < 6 ==> #[trigger] acc_val(out@[pos as int], c)
                                == range_pool_sum(s, lo as int, i as int, k0, c) + rows_pool_sum(
                                rows.take(j as int),
                                k0,
                                c,
                            ));
                    }
                    let e = &out[pos];
                    let updated = PoolAcc {
                        pool: e.pool,
                        asset_liquidity_fees: e.asset_liquidity_fees + (
                        row.asset_liquidity_fees as u128),
                        rune_liquidity_fees: e.rune_liquidity_fees + (
                        row.rune_liquidity_fees as u128),
                        total_liquidity_fees_rune: e.total_liquidity_fees_rune + (
                        row.total_liquidity_fees_rune as u128),
                        saver_earning: e.saver_earning + (row.saver_earning as u128),
                        rewards: e.rewards + (row.rewards as u128),
                        earnings: e.earnings + (row.earnings as u128),
                    };
                    out[pos] = updated;
                    proof {
                        let ks_now = keys_after_rows(keys_before, rows, j as int);
                        assert(ks_now[pos as int] == k0);
                        assert(ks_now.contains(k0));
                        assert(keys_after_rows(keys_before, rows, j as int + 1) == ks_now);
                        assert(out@.map_values(|a: PoolAcc| a.pool) =~= ks_now);
                        assert forall|p: int, c: int|
                            0 <= p < out@.len() && 0 <= c < 6 implies #[trigger] acc_val(
                            out@[p],
                            c,
                        ) == range_pool_sum(s, lo as int, i as int, out@[p].pool, c)
                            + rows_pool_sum(rows.take(j as int + 1), out@[p].pool, c) by {
                            if p == pos as int {
                                assert(acc_val(out@[p], c) == acc_val(out_before[p], c) + row_val(
                                    rows[j as int],
                                    c,
                                ));
                            } else {
                                assert(out@[p] == out_before[p]);
                                assert(ks_now[p] == out_before[p].pool);
                                assert(out_before[p].pool != k0);
                            }
                        }
                    }
                },
                None => {
                    proof {
                        let ks_now = keys_after_rows(keys_before, rows, j as int);
                        assert(!ks_now.contains(k0)) by {
                            if ks_now.contains(k0) {
                                let p = choose|p: int|
                                    0 <= p < ks_now.len() && #[trigger] ks_now[p] == k0;
                                assert(out_before[p].pool == k0);
                            }
                        }
                        assert(!keys_before.contains(k0));
                        assert(forall|p: int|
                            0 <= p < j ==> (#[trigger] rows[p]).pool != k0);
                        assert forall|t: int, p: int|
                            lo <= t < i && 0 <= p < s[t].pools@.len() implies (
                        #[trigger] s[t].pools@[p]).pool != k0 by {
                            if s[t].pools@[p].pool == k0 {
                                assert(keys_before.contains(k0));
                            }
                        }
                        lemma_range_pool_sum_absent(s, lo as int, i as int, k0, 0);
                        lemma_range_pool_sum_absent(s, lo as int, i as int, k0, 1);
                        lemma_range_pool_sum_absent(s, lo as int, i as int, k0, 2);
                        lemma_range_pool_sum_absent(s, lo as int, i as int, k0, 3);
                        lemma_range_pool_sum_absent(s, lo as int, i as int, k0, 4);
                        lemma_range_pool_sum_absent(s, lo as int, i as int, k0, 5);
                        lemma_rows_pool_sum_absent(rows, j as int, k0, 0);
                        lemma_rows_pool_sum_absent(rows, j as int, k0, 1);
                        lemma_rows_pool_sum_absent(rows, j as int, k0, 2);
                        lemma_rows_pool_sum_absent(rows, j as int, k0, 3);
                        lemma_rows_pool_sum_absent(rows, j as int, k0, 4);
                        lemma_rows_pool_sum_absent(rows, j as int, k0, 5);
                    }
                    let fresh = PoolAcc {
                        pool: row.pool,
                        asset_liquidity_fees: row.asset_liquidity_fees as u128,
                        rune_liquidity_fees: row.rune_liquidity_fees as u128,
                        total_liquidity_fees_rune: row.total_liquidity_fees_rune as u128,
                        saver_earning: row.saver_earning as u128,
                        rewards: row.rewards as u128,
                        earnings: row.earnings as u128,
                    };
                    out.push(fresh);
                    proof {
                        assert(out@.map_values(|a: PoolAcc| a.pool) =~= keys_after_rows(
                            keys_before,
                            rows,
                            j as int + 1,
                        ));
                    }
                },
            }
            j = j + 1;
        }
        proof {
            assert(rows.take(nrows as int) =~= rows);
        }
        i = i + 1;
    }
    out
}

/// One pool's aggregate as reported: the pool identifier and the six
/// summed sub-measures as decimal text.
pub struct PoolData {
    pub pool: u64,
    pub asset_liquidity_fees: String,
    pub rune_liquidity_fees: String,
    pub total_liquidity_fees_rune: String,
    pub saver_earning: String,
    pub rewards: String,
    pub earnings: String,
}

pub struct EarningIntervalData {
    pub start_time: String,
    pub end_time: String,
    pub liquidity_fees: String,
    pub block_rewards: String,
    pub earnings: String,
    pub bonding_earnings: String,
    pub liquidity_earnings: String,
    pub avg_node_count: String,
    pub rune_price_usd: String,
    pub pools: Vec<PoolData>,
}

pub struct EarningMetaData {
    pub start_time: String,
    pub end_time: String,
    pub liquidity_fees: String,
    pub block_rewards: String,
    pub earnings: String,
    pub bonding_earnings: String,
    pub liquidity_earnings: String,
    pub avg_node_count: String,
    pub rune_price_usd: String,
    pub pools: Vec<PoolData>,
}

pub struct ResponseData {
    pub meta: EarningMetaData,
    pub intervals: Vec<EarningIntervalData>,
}

/// The reported pool list for `s[lo..hi]`: one entry per pool key in
/// order of first occurrence, each sub-measure the sum over the range.
pub open spec fn pools_ok(s: Seq<EarningsSample>, lo: int, hi: int, pools: Seq<PoolData>) -> bool {
    let ks = pool_keys_in(s, lo, hi);
    &&& pools.len() == ks.len()
    &&& forall|p: int|
        0 <= p < pools.len() ==> {
            &&& (#[trigger] pools[p]).pool == ks[p]
            &&& pools[p].asset_liquidity_fees@ == dec_digits(range_pool_sum(s, lo, hi, ks[p], 0))
            &&& pools[p].rune_liquidity_fees@ == dec_digits(range_pool_sum(s, lo, hi, ks[p], 1))
            &&& pools[p].total_liquidity_fees_rune@ == dec_digits(
                range_pool_sum(s, lo, hi, ks[p], 2),
            )
            &&& pools[p].saver_earning@ == dec_digits(range_pool_sum(s, lo, hi, ks[p], 3))
            &&& pools[p].rewards@ == dec_digits(range_pool_sum(s, lo, hi, ks[p], 4))
            &&& pools[p].earnings@ == dec_digits(range_pool_sum(s, lo, hi, ks[p], 5))
        }
}

/// Merges and formats the pool sub-aggregates of `samples[lo..hi]`.
fn bucket_pools(samples: &Vec<EarningsSample>, lo: usize, hi: usize) -> (out: Vec<PoolData>)
    requires
        lo <= hi <= samples@.len(),
        samples@.len() <= MAX_SAMPLES,
        ea_samples_wf(samples@),
    ensures
        pools_ok(samples@, lo as int, hi as int, out@),
{
    let ghost s = samples@;
    let ghost ks = pool_keys_in(s, lo as int, hi as int);
    let merged = merge_pool_range(samples, lo, hi);
    let mut out: Vec<PoolData> = Vec::new();
    let mut p: usize = 0;
    while p < merged.len()
        invariant
            0 <= p <= merged@.len(),
            s == samples@,
            ks == pool_keys_in(s, lo as int, hi as int),
            merged@.map_values(|a: PoolAcc| a.pool) == ks,
            forall|q: int, c: int|
                0 <= q < merged@.len() && 0 <= c < 6 ==> #[trigger] acc_val(merged@[q], c)
                    == range_pool_sum(s, lo as int, hi as int, merged@[q].pool, c),
            out@.len() == p,
            forall|q: int|
                0 <= q < p ==> {
                    &&& (#[trigger] out@[q]).pool == ks[q]
                    &&& out@[q].asset_liquidity_fees@ == dec_digits(
                        range_pool_sum(s, lo as int, hi as int, ks[q], 0),
                    )
                    &&& out@[q].rune_liquidity_fees@ == dec_digits(
                        range_pool_sum(s, lo as int, hi as int, ks[q], 1),
                    )
                    &&& out@[q].total_liquidity_fees_rune@ == dec_digits(
                        range_pool_sum(s, lo as int, hi as int, ks[q], 2),
                    )
                    &&& out@[q].saver_earning@ == dec_digits(
                        range_pool_sum(s, lo as int, hi as int, ks[q], 3),
                    )
                    &&& out@[q].rewards@ == dec_digits(
                        range_pool_sum(s, lo as int, hi as int, ks[q], 4),
                    )
                    &&& out@[q].earnings@ == dec_digits(
                        range_pool_sum(s, lo as int, hi as int, ks[q], 5),
                    )
                },
        decreases merged@.len() - p,
    {
        let a = &merged[p];
        proof {
            assert(ks[p as int] == merged@[p as int].pool);
            assert(acc_val(merged@[p as int], 0) == merged@[p as int].asset_liquidity_fees as int);
            assert(acc_val(merged@[p as int], 1) == merged@[p as int].rune_liquidity_fees as int);
            assert(acc_val(merged@[p as int], 2) == merged@[p as int].total_liquidity_fees_rune as int);
            assert(acc_val(merged@[p as int], 3) == merged@[p as int].saver_earning as int);
            assert(acc_val(merged@[p as int], 4) == merged@[p as int].rewards as int);
            assert(acc_val(merged@[p as int], 5) == merged@[p as int].earnings as int);
        }
        out.push(
            PoolData {
                pool: a.pool,
                asset_liquidity_fees: u128_to_dec_string(a.asset_liquidity_fees),
                rune_liquidity_fees: u128_to_dec_string(a.rune_liquidity_fees),
                total_liquidity_fees_rune: u128_to_dec_string(a.total_liquidity_fees_rune),
                saver_earning: u128_to_dec_string(a.saver_earning),
                rewards: u128_to_dec_string(a.rewards),
                earnings: u128_to_dec_string(a.earnings),
            },
        );
        p = p + 1;
    }
    out
}

/// Sums the five window-level measures of `samples[lo..hi]`.
fn ea_top_roll(samples: &Vec<EarningsSample>, lo: usize, hi: usize) -> (r: (
    u128,
    u128,
    u128,
    u128,
    u128,
))
    requires
        lo < hi <= samples@.len(),
        samples@.len() <= MAX_SAMPLES,
    ensures
        r.0 as int == top_sum(samples@, lo as int, hi as int, 0),
        r.1 as int == top_sum(samples@, lo as int, hi as int, 1),
        r.2 as int == top_sum(samples@, lo as int, hi as int, 2),
        r.3 as int == top_sum(samples@, lo as int, hi as int, 3),
        r.4 as int == top_sum(samples@, lo as int, hi as int, 4),
{
    let ghost s = samples@;
    let mut a0: u128 = 0;
    let mut a1: u128 = 0;
    let mut a2: u128 = 0;
    let mut a3: u128 = 0;
    let mut a4: u128 = 0;
    let mut k: usize = lo;
    while k < hi
        invariant
            lo <= k <= hi <= s.len(),
            s == samples@,
            s.len() <= MAX_SAMPLES,
            a0 as int == top_sum(s, lo as int, k as int, 0),
            a1 as int == top_sum(s, lo as int, k as int, 1),
            a2 as int == top_sum(s, lo as int, k as int, 2),
            a3 as int == top_sum(s, lo as int, k as int, 3),
            a4 as int == top_sum(s, lo as int, k as int, 4),
            a0 <= (k - lo) * 0xffff_ffff_ffff_ffff,
            a1 <= (k - lo) * 0xffff_ffff_ffff_ffff,
            a2 <= (k - lo) * 0xffff_ffff_ffff_ffff,
            a3 <= (k - lo) * 0xffff_ffff_ffff_ffff,
            a4 <= (k - lo) * 0xffff_ffff_ffff_ffff,
        decreases hi - k,
    {
        proof {
            assert((k - lo) * 0xffff_ffff_ffff_ffff + 0xffff_ffff_ffff_ffff == (k + 1 - lo)
                * 0xffff_ffff_ffff_ffff) by (nonlinear_arith);
            assert((k + 1 - lo) * 0xffff_ffff_ffff_ffff <= MAX_SAMPLES
                * 0xffff_ffff_ffff_ffff) by (nonlinear_arith)
                requires
                    k + 1 - lo <= MAX_SAMPLES,
            ;
        }
        let row = &samples[k];
        a0 = a0 + (row.liquidity_fees as u128);
        a1 = a1 + (row.block_rewards as u128);
        a2 = a2 + (row.earnings as u128);
        a3 = a3 + (row.bonding_earnings as u128);
        a4 = a4 + (row.liquidity_earnings as u128);
        k = k + 1;
    }
    (a0, a1, a2, a3, a4)
}

pub open spec fn ea_interval_ok(
    s: Seq<EarningsSample>,
    g: Granularity,
    j: int,
    iv: EarningIntervalData,
) -> bool {
    let lo = bucket_starts(ea_shadow(s), g)[j];
    let hi = seg_end(ea_shadow(s), g, j);
    &&& iv.start_time@ == dec_digits(s[lo].start_time as int)
    &&& iv.end_time@ == dec_digits(s[hi - 1].end_time as int)
    &&& iv.liquidity_fees@ == dec_digits(top_sum(s, lo, hi, 0))
    &&& iv.block_rewards@ == dec_digits(top_sum(s, lo, hi, 1))
    &&& iv.earnings@ == dec_digits(top_sum(s, lo, hi, 2))
    &&& iv.bonding_earnings@ == dec_digits(top_sum(s, lo, hi, 3))
    &&& iv.liquidity_earnings@ == dec_digits(top_sum(s, lo, hi, 4))
    &&& iv.avg_node_count@ == dec_digits(pool_keys_in(s, lo, hi).len() as int)
    &&& iv.rune_price_usd@ == fixed_str(s[hi - 1].rune_price_usd as int)
    &&& pools_ok(s, lo, hi, iv.pools@)
}

/// The sum of the node counts (distinct pools) of the first `j` buckets.
pub open spec fn node_counts_upto(s: Seq<EarningsSample>, g: Granularity, j: int) -> int
    decreases j,
{
    if j <= 0 {
        0
    } else {
        node_counts_upto(s, g, j - 1) + pool_keys_in(
            s,
            bucket_starts(ea_shadow(s), g)[j - 1],
            seg_end(ea_shadow(s), g, j - 1),
        ).len()
    }
}

pub open spec fn ea_meta_ok(
    s: Seq<EarningsSample>,
    g: Granularity,
    max: int,
    m: EarningMetaData,
) -> bool {
    let nb = reported_buckets(ea_shadow(s), g, max);
    let end = included_end(ea_shadow(s), g, max);
    &&& m.start_time@ == dec_digits(s[0].start_time as int)
    &&& m.end_time@ == dec_digits(s[end - 1].end_time as int)
    &&& m.liquidity_fees@ == dec_digits(top_sum(s, 0, end, 0))
    &&& m.block_rewards@ == dec_digits(top_sum(s, 0, end, 1))
    &&& m.earnings@ == dec_digits(top_sum(s, 0, end, 2))
    &&& m.bonding_earnings@ == dec_digits(top_sum(s, 0, end, 3))
    &&& m.liquidity_earnings@ == dec_digits(top_sum(s, 0, end, 4))
    &&& m.avg_node_count@ == fixed_str(node_counts_upto(s, g, nb) * 100_000_000 / nb)
    &&& m.rune_price_usd@ == fixed_str(s[end - 1].rune_price_usd as int)
    &&& pools_ok(s, 0, end, m.pools@)
}

pub open spec fn ea_response_ok(
    s: Seq<EarningsSample>,
    g: Granularity,
    max: int,
    resp: ResponseData,
) -> bool {
    let nb = reported_buckets(ea_shadow(s), g, max);
    &&& resp.intervals@.len() == nb
    &&& forall|j: int| 0 <= j < nb ==> ea_interval_ok(s, g, j, resp.intervals@[j])
    &&& ea_meta_ok(s, g, max, resp.meta)
}

/// Field-for-field agreement of two reported pool lists.
pub open spec fn pools_eq(p1: Seq<PoolData>, p2: Seq<PoolData>) -> bool {
    &&& p1.len() == p2.len()
    &&& forall|p: int|
        0 <= p < p1.len() ==> {
            &&& (#[trigger] p1[p]).pool == p2[p].pool
            &&& p1[p].asset_liquidity_fees@ == p2[p].asset_liquidity_fees@
            &&& p1[p].rune_liquidity_fees@ == p2[p].rune_liquidity_fees@
            &&& p1[p].total_liquidity_fees_rune@ == p2[p].total_liquidity_fees_rune@
            &&& p1[p].saver_earning@ == p2[p].saver_earning@
            &&& p1[p].rewards@ == p2[p].rewards@
            &&& p1[p].earnings@ == p2[p].earnings@
        }
}

/// Law: aggregation is deterministic — on one immutable sample set and
/// window, any two responses meeting the contract agree interval for
/// interval, pool list order included.
pub proof fn lemma_earnings_deterministic(
    s: Seq<EarningsSample>,
    g: Granularity,
    max: int,
    r1: ResponseData,
    r2: ResponseData,
)
    requires
        s.len() > 0,
        ea_response_ok(s, g, max, r1),
        ea_response_ok(s, g, max, r2),
    ensures
        r1.intervals@.len() == r2.intervals@.len(),
        forall|j: int|
            0 <= j < r1.intervals@.len() ==> {
                &&& (#[trigger] r1.intervals@[j]).start_time@ == r2.intervals@[j].start_time@
                &&& r1.intervals@[j].end_time@ == r2.intervals@[j].end_time@
                &&& r1.intervals@[j].liquidity_fees@ == r2.intervals@[j].liquidity_fees@
                &&& r1.intervals@[j].block_rewards@ == r2.intervals@[j].block_rewards@
                &&& r1.intervals@[j].earnings@ == r2.intervals@[j].earnings@
                &&& r1.intervals@[j].bonding_earnings@ == r2.intervals@[j].bonding_earnings@
                &&& r1.intervals@[j].liquidity_earnings@ == r2.intervals@[j].liquidity_earnings@
                &&& r1.intervals@[j].avg_node_count@ == r2.intervals@[j].avg_node_count@
                &&& r1.intervals@[j].rune_price_usd@ == r2.intervals@[j].rune_price_usd@
                &&& pools_eq(r1.intervals@[j].pools@, r2.intervals@[j].pools@)
            },
        r1.meta.start_time@ == r2.meta.start_time@,
        r1.meta.end_time@ == r2.meta.end_time@,
        r1.meta.liquidity_fees@ == r2.meta.liquidity_fees@,
        r1.meta.avg_node_count@ == r2.meta.avg_node_count@,
        pools_eq(r1.meta.pools@, r2.meta.pools@),
{
}

/// Buckets a window of earnings samples and rolls it up.
///
/// Fails with `EmptyWindow` exactly when the window holds no samples;
/// otherwise reports the buckets in ascending order, at most
/// `max_intervals` of them, each with its per-pool sub-aggregates, and a
/// window summary whose pool list merges the buckets' pools by key.
pub fn earnings_history(
    samples: &Vec<EarningsSample>,
    granularity: Granularity,
    max_intervals: usize,
) -> (r: Result<ResponseData, HistoryError>)
    requires
        ea_samples_wf(samples@),
        ea_sorted(samples@),
        samples@.len() <= MAX_SAMPLES,
        1 <= max_intervals <= 400,
    ensures
        r is Err <==> samples@.len() == 0,
        r is Err ==> r->Err_0 == HistoryError::EmptyWindow,
        r is Ok ==> ea_response_ok(samples@, granularity, max_intervals as int, r->Ok_0),
{
    let ghost s = samples@;
    let n = samples.len();
    if n == 0 {
        return Err(HistoryError::EmptyWindow);
    }
    let mut shadow: Vec<RawSample> = Vec::new();
    let mut i: usize = 0;
    while i < n
        invariant
            0 <= i <= n,
            n == samples@.len(),
            ea_samples_wf(samples@),
            shadow@.len() == i,
            forall|t: int|
                0 <= t < i ==> (#[trigger] shadow@[t]).start_time == samples@[t].start_time,
        decreases n - i,
    {
        let sm = &samples[i];
        shadow.push(
            RawSample { start_time: sm.start_time, end_time: sm.end_time, measures: Vec::new() },
        );
        i = i + 1;
    }
    proof {
        assert forall|t: int| 0 <= t < shadow@.len() implies (#[trigger] shadow@[t]).start_time
            <= MAX_TIMESTAMP by {
            assert(ea_wf(s[t]));
        }
        assert(ea_shadow(s).len() == s.len());
        assert forall|t: int| 0 <= t < shadow@.len() implies shadow@[t].start_time == (
        #[trigger] ea_shadow(s)[t]).start_time by {
            assert(ea_shadow(s)[t].start_time == s[t].start_time);
        }
        lemma_starts_only_times(shadow@, ea_shadow(s), granularity, n as int);
        lemma_starts_props(ea_shadow(s), granularity, n as int);
    }
    let bs = partition_starts(&shadow, granularity);
    let ghost su = bucket_starts(ea_shadow(s), granularity);
    let nb = if bs.len() < max_intervals {
        bs.len()
    } else {
        max_intervals
    };
    let mut intervals: Vec<EarningIntervalData> = Vec::new();
    let mut total_nodes: u128 = 0;
    let mut j: usize = 0;
    while j < nb
        invariant
            0 <= j <= nb,
            nb <= bs@.len(),
            n == samples@.len(),
            s == samples@,
            0 < n <= MAX_SAMPLES,
            ea_samples_wf(s),
            nb == reported_buckets(ea_shadow(s), granularity, max_intervals as int),
            1 <= max_intervals <= 400,
            nb <= max_intervals,
            bs@.map_values(|x: usize| x as int) == su,
            su == bucket_starts(ea_shadow(s), granularity),
            forall|p: int| 0 <= p < su.len() ==> 0 <= #[trigger] su[p] < n,
            forall|p: int, q: int| 0 <= p < q < su.len() ==> su[p] < su[q],
            intervals@.len() == j,
            forall|k: int| 0 <= k < j ==> ea_interval_ok(s, granularity, k, intervals@[k]),
            total_nodes as int == node_counts_upto(s, granularity, j as int),
            total_nodes <= j * 0xffff_ffff_ffff_ffff,
        decreases nb - j,
    {
        let lo = bs[j];
        let hi = if j + 1 < bs.len() {
            bs[j + 1]
        } else {
            n
        };
        proof {
            assert(lo as int == su[j as int]);
            assert(hi as int == seg_end(ea_shadow(s), granularity, j as int));
        }
        let (a0, a1, a2, a3, a4) = ea_top_roll(samples, lo, hi);
        let pools = bucket_pools(samples, lo, hi);
        let count = pools.len();
        let first = &samples[lo];
        let last = &samples[hi - 1];
        intervals.push(
            EarningIntervalData {
                start_time: u128_to_dec_string(first.start_time as u128),
                end_time: u128_to_dec_string(last.end_time as u128),
                liquidity_fees: u128_to_dec_string(a0),
                block_rewards: u128_to_dec_string(a1),
                earnings: u128_to_dec_string(a2),
                bonding_earnings: u128_to_dec_string(a3),
                liquidity_earnings: u128_to_dec_string(a4),
                avg_node_count: u128_to_dec_string(count as u128),
                rune_price_usd: fixed_to_dec_string(last.rune_price_usd as u128),
                pools,
            },
        );
        proof {
            assert(j * 0xffff_ffff_ffff_ffff + 0xffff_ffff_ffff_ffff == (j + 1)
                * 0xffff_ffff_ffff_ffff) by (nonlinear_arith);
            assert((j + 1) * 0xffff_ffff_ffff_ffff <= 400 * 0xffff_ffff_ffff_ffff)
                by (nonlinear_arith)
                requires
                    0 <= j + 1 <= 400,
            ;
        }
        total_nodes = total_nodes + (count as u128);
        j = j + 1;
    }
    let end = if nb < bs.len() {
        bs[nb]
    } else {
        n
    };
    proof {
        assert(end as int == included_end(ea_shadow(s), granularity, max_intervals as int));
        assert(total_nodes <= 400 * 0xffff_ffff_ffff_ffff) by (nonlinear_arith)
            requires
                total_nodes <= nb * 0xffff_ffff_ffff_ffff,
                0 <= nb <= 400,
        ;
    }
    let (m0, m1, m2, m3, m4) = ea_top_roll(samples, 0, end);
    let wpools = bucket_pools(samples, 0, end);
    let avg = total_nodes * 100_000_000 / (nb as u128);
    let window_last = &samples[end - 1];
    let meta = EarningMetaData {
        start_time: u128_to_dec_string(samples[0].start_time as u128),
        end_time: u128_to_dec_string(window_last.end_time as u128),
        liquidity_fees: u128_to_dec_string(m0),
        block_rewards: u128_to_dec_string(m1),
        earnings: u128_to_dec_string(m2),
        bonding_earnings: u128_to_dec_string(m3),
        liquidity_earnings: u128_to_dec_string(m4),
        avg_node_count: fixed_to_dec_string(avg),
        rune_price_usd: fixed_to_dec_string(window_last.rune_price_usd as u128),
        pools: wpools,
    };
    Ok(ResponseData { meta, intervals })
}

} // verus!

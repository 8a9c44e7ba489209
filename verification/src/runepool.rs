//! The rune-pool variant: per bucket the unit balance and member count
//! are stocks, reported as of the bucket's last observation; the window
//! summary also reports them as of the window's first observation.

use vstd::prelude::*;
use crate::engine::bucket_starts;
use crate::engine::col_val;
use crate::engine::included_end;
use crate::engine::lemma_starts_props;
use crate::engine::partition_starts;
use crate::engine::reported_buckets;
use crate::engine::seg_end;
use crate::errors::HistoryError;
use crate::granularity::Granularity;
use crate::numtext::dec_digits;
use crate::numtext::u128_to_dec_string;
use crate::sample::MAX_SAMPLES;
use crate::sample::RawSample;
use crate::sample::samples_wf;
use crate::sample::sorted_by_start;

verus! {

/// Column layout of a rune-pool sample.
pub const RP_UNITS: usize = 0;

pub const RP_COUNT: usize = 1;

pub const RP_COLS: usize = 2;

pub struct RUNEPoolHistoryMeta {
    pub start_time: String,
    pub end_time: String,
    pub start_units: String,
    pub start_count: String,
    pub end_units: String,
    pub end_count: String,
    pub next_page: Option<String>,
}

pub struct RUNEPoolHistoryInterval {
    pub start_time: String,
    pub end_time: String,
    pub count: String,
    pub units: String,
}

pub struct RUNEPoolHistoryResponse {
    pub intervals: Vec<RUNEPoolHistoryInterval>,
    pub meta: RUNEPoolHistoryMeta,
}

pub open spec fn rp_interval_ok(
    s: Seq<RawSample>,
    g: Granularity,
    j: int,
    iv: RUNEPoolHistoryInterval,
) -> bool {
    let lo = bucket_starts(s, g)[j];
    let hi = seg_end(s, g, j);
    &&& iv.start_time@ == dec_digits(s[lo].start_time as int)
    &&& iv.end_time@ == dec_digits(s[hi - 1].end_time as int)
    &&& iv.count@ == dec_digits(col_val(s[hi - 1], RP_COUNT as int))
    &&& iv.units@ == dec_digits(col_val(s[hi - 1], RP_UNITS as int))
}

pub open spec fn rp_meta_ok(
    s: Seq<RawSample>,
    g: Granularity,
    end: int,
    m: RUNEPoolHistoryMeta,
) -> bool {
    &&& m.start_time@ == dec_digits(s[0].start_time as int)
    &&& m.end_time@ == dec_digits(s[end - 1].end_time as int)
    &&& m.start_units@ == dec_digits(col_val(s[0], RP_UNITS as int))
    &&& m.start_count@ == dec_digits(col_val(s[0], RP_COUNT as int))
    &&& m.end_units@ == dec_digits(col_val(s[end - 1], RP_UNITS as int))
    &&& m.end_count@ == dec_digits(col_val(s[end - 1], RP_COUNT as int))
    &&& m.next_page matches Some(p) && p@ == dec_digits(s[end - 1].end_time as int)
}

pub open spec fn rp_response_ok(
    s: Seq<RawSample>,
    g: Granularity,
    max: int,
    resp: RUNEPoolHistoryResponse,
) -> bool {
    let nb = reported_buckets(s, g, max);
    &&& resp.intervals@.len() == nb
    &&& forall|j: int| 0 <= j < nb ==> rp_interval_ok(s, g, j, resp.intervals@[j])
    &&& rp_meta_ok(s, g, included_end(s, g, max), resp.meta)
}

/// Buckets a window of rune-pool samples and rolls it up.
///
/// Fails with `EmptyWindow` exactly when the window holds no samples;
/// otherwise reports the buckets in ascending order, at most
/// `max_intervals` of them, and a window summary over the samples those
/// buckets cover.
pub fn runepool_history(
    samples: &Vec<RawSample>,
    granularity: Granularity,
    max_intervals: usize,
) -> (r: Result<RUNEPoolHistoryResponse, HistoryError>)
    requires
        samples_wf(samples@, RP_COLS as int),
        sorted_by_start(samples@),
        samples@.len() <= MAX_SAMPLES,
        1 <= max_intervals <= 400,
    ensures
        r is Err <==> samples@.len() == 0,
        r is Err ==> r->Err_0 == HistoryError::EmptyWindow,
        r is Ok ==> rp_response_ok(samples@, granularity, max_intervals as int, r->Ok_0),
{
    if samples.len() == 0 {
        return Err(HistoryError::EmptyWindow);
    }
    proof {
        lemma_starts_props(samples@, granularity, samples@.len() as int);
    }
    let bs = partition_starts(samples, granularity);
    let ghost su = bucket_starts(samples@, granularity);
    let nb = if bs.len() < max_intervals {
        bs.len()
    } else {
        max_intervals
    };
    let mut intervals: Vec<RUNEPoolHistoryInterval> = Vec::new();
    let mut j: usize = 0;
    while j < nb
        invariant
            0 <= j <= nb,
            nb <= bs@.len(),
            nb == reported_buckets(samples@, granularity, max_intervals as int),
            bs@.map_values(|x: usize| x as int) == su,
            su == bucket_starts(samples@, granularity),
            samples_wf(samples@, RP_COLS as int),
            samples@.len() > 0,
            forall|p: int| 0 <= p < su.len() ==> 0 <= #[trigger] su[p] < samples@.len(),
            forall|p: int, q: int| 0 <= p < q < su.len() ==> su[p] < su[q],
            intervals@.len() == j,
            forall|k: int|
                0 <= k < j ==> rp_interval_ok(samples@, granularity, k, intervals@[k]),
        decreases nb - j,
    {
        let lo = bs[j];
        let hi = if j + 1 < bs.len() {
            bs[j + 1]
        } else {
            samples.len()
        };
        proof {
            assert(lo as int == su[j as int]);
            assert(hi as int == seg_end(samples@, granularity, j as int));
        }
        let first = &samples[lo];
        let last = &samples[hi - 1];
        intervals.push(
            RUNEPoolHistoryInterval {
                start_time: u128_to_dec_string(first.start_time as u128),
                end_time: u128_to_dec_string(last.end_time as u128),
                count: u128_to_dec_string(last.measures[RP_COUNT] as u128),
                units: u128_to_dec_string(last.measures[RP_UNITS] as u128),
            },
        );
        j = j + 1;
    }
    let end = if nb < bs.len() {
        bs[nb]
    } else {
        samples.len()
    };
    proof {
        assert(end as int == included_end(samples@, granularity, max_intervals as int));
    }
    let window_first = &samples[0];
    let window_last = &samples[end - 1];
    let end_time_text = u128_to_dec_string(window_last.end_time as u128);
    let meta = RUNEPoolHistoryMeta {
        start_time: u128_to_dec_string(window_first.start_time as u128),
        end_time: end_time_text.clone(),
        start_units: u128_to_dec_string(window_first.measures[RP_UNITS] as u128),
        start_count: u128_to_dec_string(window_first.measures[RP_COUNT] as u128),
        end_units: u128_to_dec_string(window_last.measures[RP_UNITS] as u128),
        end_count: u128_to_dec_string(window_last.measures[RP_COUNT] as u128),
        next_page: Some(end_time_text),
    };
    Ok(RUNEPoolHistoryResponse { intervals, meta })
}

/// Field-for-field agreement of two rune-pool responses.
pub open spec fn rp_response_eq(r1: RUNEPoolHistoryResponse, r2: RUNEPoolHistoryResponse) -> bool {
    &&& r1.intervals@.len() == r2.intervals@.len()
    &&& forall|j: int|
        0 <= j < r1.intervals@.len() ==> {
            &&& (#[trigger] r1.intervals@[j]).start_time@ == r2.intervals@[j].start_time@
            &&& r1.intervals@[j].end_time@ == r2.intervals@[j].end_time@
            &&& r1.intervals@[j].count@ == r2.intervals@[j].count@
            &&& r1.intervals@[j].units@ == r2.intervals@[j].units@
        }
    &&& r1.meta.start_time@ == r2.meta.start_time@
    &&& r1.meta.end_time@ == r2.meta.end_time@
    &&& r1.meta.start_units@ == r2.meta.start_units@
    &&& r1.meta.start_count@ == r2.meta.start_count@
    &&& r1.meta.end_units@ == r2.meta.end_units@
    &&& r1.meta.end_count@ == r2.meta.end_count@
    &&& (r1.meta.next_page matches Some(p1) && (r2.meta.next_page matches Some(p2) && p1@ == p2@))
}

/// Law: aggregation is deterministic — on one immutable sample set and
/// window, any two responses meeting the contract agree field for field.
pub proof fn lemma_runepool_deterministic(
    s: Seq<RawSample>,
    g: Granularity,
    max: int,
    r1: RUNEPoolHistoryResponse,
    r2: RUNEPoolHistoryResponse,
)
    requires
        s.len() > 0,
        rp_response_ok(s, g, max, r1),
        rp_response_ok(s, g, max, r2),
    ensures
        rp_response_eq(r1, r2),
{
}

} // verus!

//! The depth-and-price variant: every measure is a stock, reported per
//! bucket as of the bucket's last observation, and the window summary
//! adds the two derived ratios, each taken across the whole window —
//! last observation over first observation, 0 on a zero denominator.
//!
//! The bucket rows report the last observation for every stock,
//! `synth_units` included: one consistent boundary rule for all columns.

use vstd::prelude::*;
use crate::engine::bucket_starts;
use crate::engine::col_val;
use crate::engine::included_end;
use crate::engine::lemma_starts_props;
use crate::engine::partition_starts;
use crate::engine::reported_buckets;
use crate::engine::seg_end;
use crate::errors::HistoryError;
use crate::granularity::Granularity;
use crate::numtext::dec_digits;
use crate::numtext::fixed_str;
use crate::numtext::fixed_to_dec_string;
use crate::numtext::u128_to_dec_string;
use crate::ratio::ratio_scaled;
use crate::ratio::scaled_ratio;
use crate::sample::MAX_SAMPLES;
use crate::sample::RawSample;
use crate::sample::samples_wf;
use crate::sample::sorted_by_start;

verus! {

/// Column layout of a depth-and-price sample. Prices and the luvi index
/// are fixed point at scale 10^8; the rest are plain counts.
pub const DP_ASSET_DEPTH: usize = 0;

pub const DP_ASSET_PRICE: usize = 1;

pub const DP_ASSET_PRICE_USD: usize = 2;

pub const DP_LIQUIDITY_UNITS: usize = 3;

pub const DP_LUVI: usize = 4;

pub const DP_MEMBERS_COUNT: usize = 5;

pub const DP_RUNE_DEPTH: usize = 6;

pub const DP_SYNTH_SUPPLY: usize = 7;

pub const DP_SYNTH_UNITS: usize = 8;

pub const DP_UNITS: usize = 9;

pub const DP_COLS: usize = 10;

pub struct DepthAndPriceHistoryMeta {
    pub end_asset_depth: String,
    pub end_lp_units: String,
    pub end_member_count: String,
    pub end_rune_depth: String,
    pub end_synth_units: String,
    pub end_time: String,
    pub luvi_increase: String,
    pub price_shift_loss: String,
    pub start_asset_depth: String,
    pub start_lp_units: String,
    pub start_member_count: String,
    pub start_rune_depth: String,
    pub start_synth_units: String,
    pub start_time: String,
    pub next_page: Option<String>,
}

pub struct DepthAndPriceHistoryInterval {
    pub asset_depth: String,
    pub asset_price: String,
    pub asset_price_usd: String,
    pub end_time: String,
    pub liquidity_units: String,
    pub luvi: String,
    pub members_count: String,
    pub rune_depth: String,
    pub start_time: String,
    pub synth_supply: String,
    pub synth_units: String,
    pub units: String,
}

pub struct DepthAndPriceHistoryResponse {
    pub intervals: Vec<DepthAndPriceHistoryInterval>,
    pub meta: DepthAndPriceHistoryMeta,
}

pub open spec fn dp_interval_ok(
    s: Seq<RawSample>,
    g: Granularity,
    j: int,
    iv: DepthAndPriceHistoryInterval,
) -> bool {
    let lo = bucket_starts(s, g)[j];
    let hi = seg_end(s, g, j);
    &&& iv.asset_depth@ == dec_digits(col_val(s[hi - 1], DP_ASSET_DEPTH as int))
    &&& iv.asset_price@ == fixed_str(col_val(s[hi - 1], DP_ASSET_PRICE as int))
    &&& iv.asset_price_usd@ == fixed_str(col_val(s[hi - 1], DP_ASSET_PRICE_USD as int))
    &&& iv.end_time@ == dec_digits(s[hi - 1].end_time as int)
    &&& iv.liquidity_units@ == dec_digits(col_val(s[hi - 1], DP_LIQUIDITY_UNITS as int))
    &&& iv.luvi@ == fixed_str(col_val(s[hi - 1], DP_LUVI as int))
    &&& iv.members_count@ == dec_digits(col_val(s[hi - 1], DP_MEMBERS_COUNT as int))
    &&& iv.rune_depth@ == dec_digits(col_val(s[hi - 1], DP_RUNE_DEPTH as int))
    &&& iv.start_time@ == dec_digits(s[lo].start_time as int)
    &&& iv.synth_supply@ == dec_digits(col_val(s[hi - 1], DP_SYNTH_SUPPLY as int))
    &&& iv.synth_units@ == dec_digits(col_val(s[hi - 1], DP_SYNTH_UNITS as int))
    &&& iv.units@ == dec_digits(col_val(s[hi - 1], DP_UNITS as int))
}

/// The window's luvi increase: last luvi over first luvi, fixed point.
pub open spec fn dp_luvi_increase(s: Seq<RawSample>, end: int) -> int {
    scaled_ratio(col_val(s[end - 1], DP_LUVI as int), col_val(s[0], DP_LUVI as int))
}

/// The window's price shift loss: last asset depth over first asset
/// depth, fixed point.
pub open spec fn dp_price_shift_loss(s: Seq<RawSample>, end: int) -> int {
    scaled_ratio(col_val(s[end - 1], DP_ASSET_DEPTH as int), col_val(s[0], DP_ASSET_DEPTH as int))
}

pub open spec fn dp_meta_ok(
    s: Seq<RawSample>,
    g: Granularity,
    end: int,
    m: DepthAndPriceHistoryMeta,
) -> bool {
    &&& m.end_asset_depth@ == dec_digits(col_val(s[end - 1], DP_ASSET_DEPTH as int))
    &&& m.end_lp_units@ == dec_digits(col_val(s[end - 1], DP_LIQUIDITY_UNITS as int))
    &&& m.end_member_count@ == dec_digits(col_val(s[end - 1], DP_MEMBERS_COUNT as int))
    &&& m.end_rune_depth@ == dec_digits(col_val(s[end - 1], DP_RUNE_DEPTH as int))
    &&& m.end_synth_units@ == dec_digits(col_val(s[end - 1], DP_SYNTH_UNITS as int))
    &&& m.end_time@ == dec_digits(s[end - 1].end_time as int)
    &&& m.luvi_increase@ == fixed_str(dp_luvi_increase(s, end))
    &&& m.price_shift_loss@ == fixed_str(dp_price_shift_loss(s, end))
    &&& m.start_asset_depth@ == dec_digits(col_val(s[0], DP_ASSET_DEPTH as int))
    &&& m.start_lp_units@ == dec_digits(col_val(s[0], DP_LIQUIDITY_UNITS as int))
    &&& m.start_member_count@ == dec_digits(col_val(s[0], DP_MEMBERS_COUNT as int))
    &&& m.start_rune_depth@ == dec_digits(col_val(s[0], DP_RUNE_DEPTH as int))
    &&& m.start_synth_units@ == dec_digits(col_val(s[0], DP_SYNTH_UNITS as int))
    &&& m.start_time@ == dec_digits(s[0].start_time as int)
    &&& m.next_page matches Some(p) && p@ == dec_digits(s[end - 1].end_time as int)
}

pub open spec fn dp_response_ok(
    s: Seq<RawSample>,
    g: Granularity,
    max: int,
    resp: DepthAndPriceHistoryResponse,
) -> bool {
    let nb = reported_buckets(s, g, max);
    &&& resp.intervals@.len() == nb
    &&& forall|j: int| 0 <= j < nb ==> dp_interval_ok(s, g, j, resp.intervals@[j])
    &&& dp_meta_ok(s, g, included_end(s, g, max), resp.meta)
}

/// Buckets a window of depth-and-price samples and rolls it up.
///
/// Fails with `EmptyWindow` exactly when the window holds no samples;
/// otherwise reports the buckets in ascending order, at most
/// `max_intervals` of them, and a window summary (boundary stocks plus
/// the two derived ratios) over the samples those buckets cover.
pub fn depth_history(
    samples: &Vec<RawSample>,
    granularity: Granularity,
    max_intervals: usize,
) -> (r: Result<DepthAndPriceHistoryResponse, HistoryError>)
    requires
        samples_wf(samples@, DP_COLS as int),
        sorted_by_start(samples@),
        samples@.len() <= MAX_SAMPLES,
        1 <= max_intervals <= 400,
    ensures
        r is Err <==> samples@.len() == 0,
        r is Err ==> r->Err_0 == HistoryError::EmptyWindow,
        r is Ok ==> dp_response_ok(samples@, granularity, max_intervals as int, r->Ok_0),
{
    if samples.len() == 0 {
        return Err(HistoryError::EmptyWindow);
    }
    proof {
        lemma_starts_props(samples@, granularity, samples@.len() as int);
    }
    let bs = partition_starts(samples, granularity);
    let ghost su = bucket_starts(samples@, granularity);
    let nb = if bs.len() < max_intervals {
        bs.len()
    } else {
        max_intervals
    };
    let mut intervals: Vec<DepthAndPriceHistoryInterval> = Vec::new();
    let mut j: usize = 0;
    while j < nb
        invariant
            0 <= j <= nb,
            nb <= bs@.len(),
            nb == reported_buckets(samples@, granularity, max_intervals as int),
            bs@.map_values(|x: usize| x as int) == su,
            su == bucket_starts(samples@, granularity),
            samples_wf(samples@, DP_COLS as int),
            samples@.len() > 0,
            forall|p: int| 0 <= p < su.len() ==> 0 <= #[trigger] su[p] < samples@.len(),
            forall|p: int, q: int| 0 <= p < q < su.len() ==> su[p] < su[q],
            intervals@.len() == j,
            forall|k: int|
                0 <= k < j ==> dp_interval_ok(samples@, granularity, k, intervals@[k]),
        decreases nb - j,
    {
        let lo = bs[j];
        let hi = if j + 1 < bs.len() {
            bs[j + 1]
        } else {
            samples.len()
        };
        proof {
            assert(lo as int == su[j as int]);
            assert(hi as int == seg_end(samples@, granularity, j as int));
        }
        let first = &samples[lo];
        let last = &samples[hi - 1];
        intervals.push(
            DepthAndPriceHistoryInterval {
                asset_depth: u128_to_dec_string(last.measures[DP_ASSET_DEPTH] as u128),
                asset_price: fixed_to_dec_string(last.measures[DP_ASSET_PRICE] as u128),
                asset_price_usd: fixed_to_dec_string(last.measures[DP_ASSET_PRICE_USD] as u128),
                end_time: u128_to_dec_string(last.end_time as u128),
                liquidity_units: u128_to_dec_string(last.measures[DP_LIQUIDITY_UNITS] as u128),
                luvi: fixed_to_dec_string(last.measures[DP_LUVI] as u128),
                members_count: u128_to_dec_string(last.measures[DP_MEMBERS_COUNT] as u128),
                rune_depth: u128_to_dec_string(last.measures[DP_RUNE_DEPTH] as u128),
                start_time: u128_to_dec_string(first.start_time as u128),
                synth_supply: u128_to_dec_string(last.measures[DP_SYNTH_SUPPLY] as u128),
                synth_units: u128_to_dec_string(last.measures[DP_SYNTH_UNITS] as u128),
                units: u128_to_dec_string(last.measures[DP_UNITS] as u128),
            },
        );
        j = j + 1;
    }
    let end = if nb < bs.len() {
        bs[nb]
    } else {
        samples.len()
    };
    proof {
        assert(end as int == included_end(samples@, granularity, max_intervals as int));
    }
    let window_first = &samples[0];
    let window_last = &samples[end - 1];
    let end_time_text = u128_to_dec_string(window_last.end_time as u128);
    let luvi_ratio = ratio_scaled(window_last.measures[DP_LUVI], window_first.measures[DP_LUVI]);
    let depth_ratio = ratio_scaled(window_last.measures[DP_ASSET_DEPTH], window_first.measures[DP_ASSET_DEPTH]);
    let meta = DepthAndPriceHistoryMeta {
        end_asset_depth: u128_to_dec_string(window_last.measures[DP_ASSET_DEPTH] as u128),
        end_lp_units: u128_to_dec_string(window_last.measures[DP_LIQUIDITY_UNITS] as u128),
        end_member_count: u128_to_dec_string(window_last.measures[DP_MEMBERS_COUNT] as u128),
        end_rune_depth: u128_to_dec_string(window_last.measures[DP_RUNE_DEPTH] as u128),
        end_synth_units: u128_to_dec_string(window_last.measures[DP_SYNTH_UNITS] as u128),
        end_time: end_time_text.clone(),
        luvi_increase: fixed_to_dec_string(luvi_ratio),
        price_shift_loss: fixed_to_dec_string(depth_ratio),
        start_asset_depth: u128_to_dec_string(window_first.measures[DP_ASSET_DEPTH] as u128),
        start_lp_units: u128_to_dec_string(window_first.measures[DP_LIQUIDITY_UNITS] as u128),
        start_member_count: u128_to_dec_string(window_first.measures[DP_MEMBERS_COUNT] as u128),
        start_rune_depth: u128_to_dec_string(window_first.measures[DP_RUNE_DEPTH] as u128),
        start_synth_units: u128_to_dec_string(window_first.measures[DP_SYNTH_UNITS] as u128),
        start_time: u128_to_dec_string(window_first.start_time as u128),
        next_page: Some(end_time_text),
    };
    Ok(DepthAndPriceHistoryResponse { intervals, meta })
}

/// Field-for-field agreement of two depth-and-price responses.
pub open spec fn dp_response_eq(
    r1: DepthAndPriceHistoryResponse,
    r2: DepthAndPriceHistoryResponse,
) -> bool {
    &&& r1.intervals@.len() == r2.intervals@.len()
    &&& forall|j: int|
        0 <= j < r1.intervals@.len() ==> {
            &&& (#[trigger] r1.intervals@[j]).asset_depth@ == r2.intervals@[j].asset_depth@
            &&& r1.intervals@[j].asset_price@ == r2.intervals@[j].asset_price@
            &&& r1.intervals@[j].asset_price_usd@ == r2.intervals@[j].asset_price_usd@
            &&& r1.intervals@[j].end_time@ == r2.intervals@[j].end_time@
            &&& r1.intervals@[j].liquidity_units@ == r2.intervals@[j].liquidity_units@
            &&& r1.intervals@[j].luvi@ == r2.intervals@[j].luvi@
            &&& r1.intervals@[j].members_count@ == r2.intervals@[j].members_count@
            &&& r1.intervals@[j].rune_depth@ == r2.intervals@[j].rune_depth@
            &&& r1.intervals@[j].start_time@ == r2.intervals@[j].start_time@
            &&& r1.intervals@[j].synth_supply@ == r2.intervals@[j].synth_supply@
            &&& r1.intervals@[j].synth_units@ == r2.intervals@[j].synth_units@
            &&& r1.intervals@[j].units@ == r2.intervals@[j].units@
        }
    &&& r1.meta.end_asset_depth@ == r2.meta.end_asset_depth@
    &&& r1.meta.end_lp_units@ == r2.meta.end_lp_units@
    &&& r1.meta.end_member_count@ == r2.meta.end_member_count@
    &&& r1.meta.end_rune_depth@ == r2.meta.end_rune_depth@
    &&& r1.meta.end_synth_units@ == r2.meta.end_synth_units@
    &&& r1.meta.end_time@ == r2.meta.end_time@
    &&& r1.meta.luvi_increase@ == r2.meta.luvi_increase@
    &&& r1.meta.price_shift_loss@ == r2.meta.price_shift_loss@
    &&& r1.meta.start_asset_depth@ == r2.meta.start_asset_depth@
    &&& r1.meta.start_lp_units@ == r2.meta.start_lp_units@
    &&& r1.meta.start_member_count@ == r2.meta.start_member_count@
    &&& r1.meta.start_rune_depth@ == r2.meta.start_rune_depth@
    &&& r1.meta.start_synth_units@ == r2.meta.start_synth_units@
    &&& r1.meta.start_time@ == r2.meta.start_time@
    &&& (r1.meta.next_page matches Some(p1) && (r2.meta.next_page matches Some(p2) && p1@ == p2@))
}

/// Law: aggregation is deterministic — on one immutable sample set and
/// window, any two responses meeting the contract agree field for field.
pub proof fn lemma_depth_deterministic(
    s: Seq<RawSample>,
    g: Granularity,
    max: int,
    r1: DepthAndPriceHistoryResponse,
    r2: DepthAndPriceHistoryResponse,
)
    requires
        s.len() > 0,
        dp_response_ok(s, g, max, r1),
        dp_response_ok(s, g, max, r2),
    ensures
        dp_response_eq(r1, r2),
{
}

/// Law: the derived ratios are exactly zero whenever the window's first
/// observation of the denominator measure is zero, for any numerator.
pub proof fn lemma_zero_denominator_ratios(
    s: Seq<RawSample>,
    g: Granularity,
    max: int,
    m: DepthAndPriceHistoryMeta,
)
    requires
        s.len() > 0,
        dp_meta_ok(s, g, included_end(s, g, max), m),
    ensures
        col_val(s[0], DP_LUVI as int) == 0 ==> m.luvi_increase@ == fixed_str(0),
        col_val(s[0], DP_ASSET_DEPTH as int) == 0 ==> m.price_shift_loss@ == fixed_str(0),
{
}

} // verus!

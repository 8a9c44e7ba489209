//! The swaps variant: counts, fees and volumes are flows, summed across
//! each bucket; slip percentages are averaged across each bucket; the
//! rune price and the upstream total volume in USD are stocks, carried
//! through from the bucket's last observation. One consistent rule per
//! measure, applied to the bucket rows and the window summary alike: the
//! summary folds the bucket rows, so its cumulative columns sum over the
//! whole window, its boundary columns carry the window's last
//! observation, and its averaged columns take the arithmetic mean of the
//! per-bucket means, one weight per bucket.
//!
//! Each row also derives `total_count`, `total_fees` and `total_volume`
//! as the to-asset, to-rune and synth-mint sub-totals plus the
//! synth-redeem running sum.

use vstd::prelude::*;
use crate::engine::AggregatedInterval;
use crate::engine::Strategy;
use crate::engine::aggregate_range;
use crate::engine::bucket_starts;
use crate::engine::included_end;
use crate::engine::interval_ok;
use crate::engine::lemma_starts_props;
use crate::engine::lemma_sum_col_bounds;
use crate::engine::partition_starts;
use crate::engine::reported_buckets;
use crate::engine::seg_end;
use crate::engine::strategy_value;
use crate::errors::HistoryError;
use crate::granularity::Granularity;
use crate::numtext::dec_digits;
use crate::numtext::fixed_str;
use crate::numtext::fixed_to_dec_string;
use crate::numtext::u128_to_dec_string;
use crate::sample::MAX_SAMPLES;
use crate::sample::RawSample;
use crate::sample::samples_wf;
use crate::sample::sorted_by_start;

verus! {

/// Column layout of a swaps sample. Slips, USD amounts and the rune
/// price are fixed point at scale 10^8; the rest are plain counts.
pub const SW_AVERAGE_SLIP: usize = 0;

pub const SW_FROM_TRADE_AVERAGE_SLIP: usize = 1;

pub const SW_FROM_TRADE_COUNT: usize = 2;

pub const SW_FROM_TRADE_FEES: usize = 3;

pub const SW_FROM_TRADE_VOLUME: usize = 4;

pub const SW_FROM_TRADE_VOLUME_USD: usize = 5;

pub const SW_RUNE_PRICE_USD: usize = 6;

pub const SW_SYNTH_MINT_AVERAGE_SLIP: usize = 7;

pub const SW_SYNTH_MINT_COUNT: usize = 8;

pub const SW_SYNTH_MINT_FEES: usize = 9;

pub const SW_SYNTH_MINT_VOLUME: usize = 10;

pub const SW_SYNTH_MINT_VOLUME_USD: usize = 11;

pub const SW_SYNTH_REDEEM_AVERAGE_SLIP: usize = 12;

pub const SW_SYNTH_REDEEM_COUNT: usize = 13;

pub const SW_SYNTH_REDEEM_FEES: usize = 14;

pub const SW_SYNTH_REDEEM_VOLUME: usize = 15;

pub const SW_SYNTH_REDEEM_VOLUME_USD: usize = 16;

pub const SW_TO_ASSET_AVERAGE_SLIP: usize = 17;

pub const SW_TO_ASSET_COUNT: usize = 18;

pub const SW_TO_ASSET_FEES: usize = 19;

pub const SW_TO_ASSET_VOLUME: usize = 20;

pub const SW_TO_ASSET_VOLUME_USD: usize = 21;

pub const SW_TO_RUNE_AVERAGE_SLIP: usize = 22;

pub const SW_TO_RUNE_COUNT: usize = 23;

pub const SW_TO_RUNE_FEES: usize = 24;

pub const SW_TO_RUNE_VOLUME: usize = 25;

pub const SW_TO_RUNE_VOLUME_USD: usize = 26;

pub const SW_TO_TRADE_AVERAGE_SLIP: usize = 27;

pub const SW_TO_TRADE_COUNT: usize = 28;

pub const SW_TO_TRADE_FEES: usize = 29;

pub const SW_TO_TRADE_VOLUME: usize = 30;

pub const SW_TO_TRADE_VOLUME_USD: usize = 31;

pub const SW_TOTAL_VOLUME_USD: usize = 32;

pub const SW_COLS: usize = 33;

/// The strategy of each swaps column: slips averaged, the rune price and
/// the upstream USD total carried through from the last observation,
/// everything else summed.
pub open spec fn swap_strategies() -> Seq<Strategy> {
    seq![
        Strategy::Averaged,
        Strategy::Averaged,
        Strategy::Cumulative,
        Strategy::Cumulative,
        Strategy::Cumulative,
        Strategy::Cumulative,
        Strategy::BoundaryLast,
        Strategy::Averaged,
        Strategy::Cumulative,
        Strategy::Cumulative,
        Strategy::Cumulative,
        Strategy::Cumulative,
        Strategy::Averaged,
        Strategy::Cumulative,
        Strategy::Cumulative,
        Strategy::Cumulative,
        Strategy::Cumulative,
        Strategy::Averaged,
        Strategy::Cumulative,
        Strategy::Cumulative,
        Strategy::Cumulative,
        Strategy::Cumulative,
        Strategy::Averaged,
        Strategy::Cumulative,
        Strategy::Cumulative,
        Strategy::Cumulative,
        Strategy::Cumulative,
        Strategy::Averaged,
        Strategy::Cumulative,
        Strategy::Cumulative,
        Strategy::Cumulative,
        Strategy::Cumulative,
        Strategy::BoundaryLast,
    ]
}

/// The columns held in fixed point, whose text carries eight fractional
/// digits.
pub open spec fn sw_scaled(c: int) -> bool {
    ||| c == 0
    ||| c == 1
    ||| c == 5
    ||| c == 6
    ||| c == 7
    ||| c == 11
    ||| c == 12
    ||| c == 16
    ||| c == 17
    ||| c == 21
    ||| c == 22
    ||| c == 26
    ||| c == 27
    ||| c == 31
    ||| c == 32
}

/// The rolled-up value of column `c` over `s[lo..hi]`.
pub open spec fn sw_val(s: Seq<RawSample>, lo: int, hi: int, c: int) -> int {
    strategy_value(swap_strategies()[c], s.subrange(lo, hi), c)
}

/// The reported text of column `c` over `s[lo..hi]`.
pub open spec fn sw_text(s: Seq<RawSample>, lo: int, hi: int, c: int) -> Seq<char> {
    if sw_scaled(c) {
        fixed_str(sw_val(s, lo, hi, c))
    } else {
        dec_digits(sw_val(s, lo, hi, c))
    }
}

pub open spec fn sw_total_count(s: Seq<RawSample>, lo: int, hi: int) -> int {
    sw_val(s, lo, hi, SW_TO_ASSET_COUNT as int) + sw_val(s, lo, hi, SW_TO_RUNE_COUNT as int)
        + sw_val(s, lo, hi, SW_SYNTH_MINT_COUNT as int) + sw_val(
        s,
        lo,
        hi,
        SW_SYNTH_REDEEM_COUNT as int,
    )
}

pub open spec fn sw_total_fees(s: Seq<RawSample>, lo: int, hi: int) -> int {
    sw_val(s, lo, hi, SW_TO_ASSET_FEES as int) + sw_val(s, lo, hi, SW_TO_RUNE_FEES as int)
        + sw_val(s, lo, hi, SW_SYNTH_MINT_FEES as int) + sw_val(
        s,
        lo,
        hi,
        SW_SYNTH_REDEEM_FEES as int,
    )
}

pub open spec fn sw_total_volume(s: Seq<RawSample>, lo: int, hi: int) -> int {
    sw_val(s, lo, hi, SW_TO_ASSET_VOLUME as int) + sw_val(s, lo, hi, SW_TO_RUNE_VOLUME as int)
        + sw_val(s, lo, hi, SW_SYNTH_MINT_VOLUME as int) + sw_val(
        s,
        lo,
        hi,
        SW_SYNTH_REDEEM_VOLUME as int,
    )
}

pub struct SwapsIntervalResponse {
    pub average_slip: String,
    pub end_time: String,
    pub from_trade_average_slip: String,
    pub from_trade_count: String,
    pub from_trade_fees: String,
    pub from_trade_volume: String,
    pub from_trade_volume_usd: String,
    pub start_time: String,
    pub rune_price_usd: String,
    pub synth_mint_average_slip: String,
    pub synth_mint_count: String,
    pub synth_mint_fees: String,
    pub synth_mint_volume: String,
    pub synth_mint_volume_usd: String,
    pub synth_redeem_average_slip: String,
    pub synth_redeem_count: String,
    pub synth_redeem_fees: String,
    pub synth_redeem_volume: String,
    pub synth_redeem_volume_usd: String,
    pub to_asset_average_slip: String,
    pub to_asset_count: String,
    pub to_asset_fees: String,
    pub to_asset_volume: String,
    pub to_asset_volume_usd: String,
    pub to_rune_average_slip: String,
    pub to_rune_count: String,
    pub to_rune_fees: String,
    pub to_rune_volume: String,
    pub to_rune_volume_usd: String,
    pub to_trade_average_slip: String,
    pub to_trade_count: String,
    pub to_trade_fees: String,
    pub to_trade_volume: String,
    pub to_trade_volume_usd: String,
    pub total_count: String,
    pub total_fees: String,
    pub total_volume: String,
    pub total_volume_usd: String,
}

pub struct SwapsMeta {
    pub average_slip: String,
    pub end_time: String,
    pub from_trade_average_slip: String,
    pub from_trade_count: String,
    pub from_trade_fees: String,
    pub from_trade_volume: String,
    pub from_trade_volume_usd: String,
    pub rune_price_usd: String,
    pub start_time: String,
    pub synth_mint_average_slip: String,
    pub synth_mint_count: String,
    pub synth_mint_fees: String,
    pub synth_mint_volume: String,
    pub synth_mint_volume_usd: String,
    pub synth_redeem_average_slip: String,
    pub synth_redeem_count: String,
    pub synth_redeem_fees: String,
    pub synth_redeem_volume: String,
    pub synth_redeem_volume_usd: String,
    pub to_asset_average_slip: String,
    pub to_asset_count: String,
    pub to_asset_fees: String,
    pub to_asset_volume: String,
    pub to_asset_volume_usd: String,
    pub to_rune_average_slip: String,
    pub to_rune_count: String,
    pub to_rune_fees: String,
    pub to_rune_volume: String,
    pub to_rune_volume_usd: String,
    pub to_trade_average_slip: String,
    pub to_trade_count: String,
    pub to_trade_fees: String,
    pub to_trade_volume: String,
    pub to_trade_volume_usd: String,
    pub total_count: String,
    pub total_fees: String,
    pub total_volume: String,
    pub total_volume_usd: String,
    pub next: Option<String>,
}

pub struct SwapResponse {
    pub intervals: Vec<SwapsIntervalResponse>,
    pub meta: SwapsMeta,
}

/// The measure fields a swaps row reports for the run `s[lo..hi]`.
pub open spec fn sw_fields_ok(
    s: Seq<RawSample>,
    lo: int,
    hi: int,
    iv: SwapsIntervalResponse,
) -> bool {
    &&& iv.average_slip@ == sw_text(s, lo, hi, SW_AVERAGE_SLIP as int)
    &&& iv.end_time@ == dec_digits(s[hi - 1].end_time as int)
    &&& iv.from_trade_average_slip@ == sw_text(s, lo, hi, SW_FROM_TRADE_AVERAGE_SLIP as int)
    &&& iv.from_trade_count@ == sw_text(s, lo, hi, SW_FROM_TRADE_COUNT as int)
    &&& iv.from_trade_fees@ == sw_text(s, lo, hi, SW_FROM_TRADE_FEES as int)
    &&& iv.from_trade_volume@ == sw_text(s, lo, hi, SW_FROM_TRADE_VOLUME as int)
    &&& iv.from_trade_volume_usd@ == sw_text(s, lo, hi, SW_FROM_TRADE_VOLUME_USD as int)
    &&& iv.start_time@ == dec_digits(s[lo].start_time as int)
    &&& iv.rune_price_usd@ == sw_text(s, lo, hi, SW_RUNE_PRICE_USD as int)
    &&& iv.synth_mint_average_slip@ == sw_text(s, lo, hi, SW_SYNTH_MINT_AVERAGE_SLIP as int)
    &&& iv.synth_mint_count@ == sw_text(s, lo, hi, SW_SYNTH_MINT_COUNT as int)
    &&& iv.synth_mint_fees@ == sw_text(s, lo, hi, SW_SYNTH_MINT_FEES as int)
    &&& iv.synth_mint_volume@ == sw_text(s, lo, hi, SW_SYNTH_MINT_VOLUME as int)
    &&& iv.synth_mint_volume_usd@ == sw_text(s, lo, hi, SW_SYNTH_MINT_VOLUME_USD as int)
    &&& iv.synth_redeem_average_slip@ == sw_text(s, lo, hi, SW_SYNTH_REDEEM_AVERAGE_SLIP as int)
    &&& iv.synth_redeem_count@ == sw_text(s, lo, hi, SW_SYNTH_REDEEM_COUNT as int)
    &&& iv.synth_redeem_fees@ == sw_text(s, lo, hi, SW_SYNTH_REDEEM_FEES as int)
    &&& iv.synth_redeem_volume@ == sw_text(s, lo, hi, SW_SYNTH_REDEEM_VOLUME as int)
    &&& iv.synth_redeem_volume_usd@ == sw_text(s, lo, hi, SW_SYNTH_REDEEM_VOLUME_USD as int)
    &&& iv.to_asset_average_slip@ == sw_text(s, lo, hi, SW_TO_ASSET_AVERAGE_SLIP as int)
    &&& iv.to_asset_count@ == sw_text(s, lo, hi, SW_TO_ASSET_COUNT as int)
    &&& iv.to_asset_fees@ == sw_text(s, lo, hi, SW_TO_ASSET_FEES as int)
    &&& iv.to_asset_volume@ == sw_text(s, lo, hi, SW_TO_ASSET_VOLUME as int)
    &&& iv.to_asset_volume_usd@ == sw_text(s, lo, hi, SW_TO_ASSET_VOLUME_USD as int)
    &&& iv.to_rune_average_slip@ == sw_text(s, lo, hi, SW_TO_RUNE_AVERAGE_SLIP as int)
    &&& iv.to_rune_count@ == sw_text(s, lo, hi, SW_TO_RUNE_COUNT as int)
    &&& iv.to_rune_fees@ == sw_text(s, lo, hi, SW_TO_RUNE_FEES as int)
    &&& iv.to_rune_volume@ == sw_text(s, lo, hi, SW_TO_RUNE_VOLUME as int)
    &&& iv.to_rune_volume_usd@ == sw_text(s, lo, hi, SW_TO_RUNE_VOLUME_USD as int)
    &&& iv.to_trade_average_slip@ == sw_text(s, lo, hi, SW_TO_TRADE_AVERAGE_SLIP as int)
    &&& iv.to_trade_count@ == sw_text(s, lo, hi, SW_TO_TRADE_COUNT as int)
    &&& iv.to_trade_fees@ == sw_text(s, lo, hi, SW_TO_TRADE_FEES as int)
    &&& iv.to_trade_volume@ == sw_text(s, lo, hi, SW_TO_TRADE_VOLUME as int)
    &&& iv.to_trade_volume_usd@ == sw_text(s, lo, hi, SW_TO_TRADE_VOLUME_USD as int)
    &&& iv.total_count@ == dec_digits(sw_total_count(s, lo, hi))
    &&& iv.total_fees@ == dec_digits(sw_total_fees(s, lo, hi))
    &&& iv.total_volume@ == dec_digits(sw_total_volume(s, lo, hi))
    &&& iv.total_volume_usd@ == sw_text(s, lo, hi, SW_TOTAL_VOLUME_USD as int)
}

pub open spec fn sw_interval_ok(
    s: Seq<RawSample>,
    g: Granularity,
    j: int,
    iv: SwapsIntervalResponse,
) -> bool {
    sw_fields_ok(s, bucket_starts(s, g)[j], seg_end(s, g, j), iv)
}

/// The sum of column `c`'s per-bucket rolled-up values over the first
/// `j` buckets.
pub open spec fn sw_bucket_vals_sum(s: Seq<RawSample>, g: Granularity, c: int, j: int) -> int
    decreases j,
{
    if j <= 0 {
        0
    } else {
        sw_bucket_vals_sum(s, g, c, j - 1) + sw_val(
            s,
            bucket_starts(s, g)[j - 1],
            seg_end(s, g, j - 1),
            c,
        )
    }
}

/// The window summary's value of column `c`: an averaged column is the
/// arithmetic mean of the per-bucket means, one weight per bucket; every
/// other column rolls up over all included samples (for a cumulative
/// column that is exactly the fold of the per-bucket sums).
pub open spec fn sw_meta_val(s: Seq<RawSample>, g: Granularity, max: int, c: int) -> int {
    if swap_strategies()[c] is Averaged {
        sw_bucket_vals_sum(s, g, c, reported_buckets(s, g, max)) / reported_buckets(s, g, max)
    } else {
        sw_val(s, 0, included_end(s, g, max), c)
    }
}

/// The reported text of column `c` in the window summary.
pub open spec fn sw_meta_text(s: Seq<RawSample>, g: Granularity, max: int, c: int) -> Seq<char> {
    if sw_scaled(c) {
        fixed_str(sw_meta_val(s, g, max, c))
    } else {
        dec_digits(sw_meta_val(s, g, max, c))
    }
}

/// The window summary: per-bucket-weighted means for the averaged
/// columns, whole-window roll-ups for the rest, the window's boundary
/// instants, and the pagination cursor.
pub open spec fn sw_meta_ok(s: Seq<RawSample>, g: Granularity, max: int, m: SwapsMeta) -> bool {
    let end = included_end(s, g, max);
    &&& m.average_slip@ == sw_meta_text(s, g, max, SW_AVERAGE_SLIP as int)
    &&& m.end_time@ == dec_digits(s[end - 1].end_time as int)
    &&& m.from_trade_average_slip@ == sw_meta_text(s, g, max, SW_FROM_TRADE_AVERAGE_SLIP as int)
    &&& m.from_trade_count@ == sw_meta_text(s, g, max, SW_FROM_TRADE_COUNT as int)
    &&& m.from_trade_fees@ == sw_meta_text(s, g, max, SW_FROM_TRADE_FEES as int)
    &&& m.from_trade_volume@ == sw_meta_text(s, g, max, SW_FROM_TRADE_VOLUME as int)
    &&& m.from_trade_volume_usd@ == sw_meta_text(s, g, max, SW_FROM_TRADE_VOLUME_USD as int)
    &&& m.rune_price_usd@ == sw_meta_text(s, g, max, SW_RUNE_PRICE_USD as int)
    &&& m.start_time@ == dec_digits(s[0].start_time as int)
    &&& m.synth_mint_average_slip@ == sw_meta_text(s, g, max, SW_SYNTH_MINT_AVERAGE_SLIP as int)
    &&& m.synth_mint_count@ == sw_meta_text(s, g, max, SW_SYNTH_MINT_COUNT as int)
    &&& m.synth_mint_fees@ == sw_meta_text(s, g, max, SW_SYNTH_MINT_FEES as int)
    &&& m.synth_mint_volume@ == sw_meta_text(s, g, max, SW_SYNTH_MINT_VOLUME as int)
    &&& m.synth_mint_volume_usd@ == sw_meta_text(s, g, max, SW_SYNTH_MINT_VOLUME_USD as int)
    &&& m.synth_redeem_average_slip@ == sw_meta_text(
        s,
        g,
        max,
        SW_SYNTH_REDEEM_AVERAGE_SLIP as int,
    )
    &&& m.synth_redeem_count@ == sw_meta_text(s, g, max, SW_SYNTH_REDEEM_COUNT as int)
    &&& m.synth_redeem_fees@ == sw_meta_text(s, g, max, SW_SYNTH_REDEEM_FEES as int)
    &&& m.synth_redeem_volume@ == sw_meta_text(s, g, max, SW_SYNTH_REDEEM_VOLUME as int)
    &&& m.synth_redeem_volume_usd@ == sw_meta_text(s, g, max, SW_SYNTH_REDEEM_VOLUME_USD as int)
    &&& m.to_asset_average_slip@ == sw_meta_text(s, g, max, SW_TO_ASSET_AVERAGE_SLIP as int)
    &&& m.to_asset_count@ == sw_meta_text(s, g, max, SW_TO_ASSET_COUNT as int)
    &&& m.to_asset_fees@ == sw_meta_text(s, g, max, SW_TO_ASSET_FEES as int)
    &&& m.to_asset_volume@ == sw_meta_text(s, g, max, SW_TO_ASSET_VOLUME as int)
    &&& m.to_asset_volume_usd@ == sw_meta_text(s, g, max, SW_TO_ASSET_VOLUME_USD as int)
    &&& m.to_rune_average_slip@ == sw_meta_text(s, g, max, SW_TO_RUNE_AVERAGE_SLIP as int)
    &&& m.to_rune_count@ == sw_meta_text(s, g, max, SW_TO_RUNE_COUNT as int)
    &&& m.to_rune_fees@ == sw_meta_text(s, g, max, SW_TO_RUNE_FEES as int)
    &&& m.to_rune_volume@ == sw_meta_text(s, g, max, SW_TO_RUNE_VOLUME as int)
    &&& m.to_rune_volume_usd@ == sw_meta_text(s, g, max, SW_TO_RUNE_VOLUME_USD as int)
    &&& m.to_trade_average_slip@ == sw_meta_text(s, g, max, SW_TO_TRADE_AVERAGE_SLIP as int)
    &&& m.to_trade_count@ == sw_meta_text(s, g, max, SW_TO_TRADE_COUNT as int)
    &&& m.to_trade_fees@ == sw_meta_text(s, g, max, SW_TO_TRADE_FEES as int)
    &&& m.to_trade_volume@ == sw_meta_text(s, g, max, SW_TO_TRADE_VOLUME as int)
    &&& m.to_trade_volume_usd@ == sw_meta_text(s, g, max, SW_TO_TRADE_VOLUME_USD as int)
    &&& m.total_count@ == dec_digits(sw_total_count(s, 0, end))
    &&& m.total_fees@ == dec_digits(sw_total_fees(s, 0, end))
    &&& m.total_volume@ == dec_digits(sw_total_volume(s, 0, end))
    &&& m.total_volume_usd@ == sw_meta_text(s, g, max, SW_TOTAL_VOLUME_USD as int)
    &&& m.next matches Some(p) && p@ == dec_digits(s[end - 1].end_time as int)
}

pub open spec fn sw_response_ok(
    s: Seq<RawSample>,
    g: Granularity,
    max: int,
    resp: SwapResponse,
) -> bool {
    let nb = reported_buckets(s, g, max);
    &&& resp.intervals@.len() == nb
    &&& forall|j: int| 0 <= j < nb ==> sw_interval_ok(s, g, j, resp.intervals@[j])
    &&& sw_meta_ok(s, g, max, resp.meta)
}

fn swap_strategy_vec() -> (v: Vec<Strategy>)
    ensures
        v@ == swap_strategies(),
{
    let v: Vec<Strategy> = vec![
        Strategy::Averaged,
        Strategy::Averaged,
        Strategy::Cumulative,
        Strategy::Cumulative,
        Strategy::Cumulative,
        Strategy::Cumulative,
        Strategy::BoundaryLast,
        Strategy::Averaged,
        Strategy::Cumulative,
        Strategy::Cumulative,
        Strategy::Cumulative,
        Strategy::Cumulative,
        Strategy::Averaged,
        Strategy::Cumulative,
        Strategy::Cumulative,
        Strategy::Cumulative,
        Strategy::Cumulative,
        Strategy::Averaged,
        Strategy::Cumulative,
        Strategy::Cumulative,
        Strategy::Cumulative,
        Strategy::Cumulative,
        Strategy::Averaged,
        Strategy::Cumulative,
        Strategy::Cumulative,
        Strategy::Cumulative,
        Strategy::Cumulative,
        Strategy::Averaged,
        Strategy::Cumulative,
        Strategy::Cumulative,
        Strategy::Cumulative,
        Strategy::Cumulative,
        Strategy::BoundaryLast,
    ];
    proof {
        assert(v@ =~= swap_strategies());
    }
    v
}

/// Builds the reported row for the run `samples[lo..hi]` from its
/// rolled-up values.
fn build_swap_row(
    samples: &Vec<RawSample>,
    lo: usize,
    hi: usize,
    iv: &AggregatedInterval,
) -> (row: SwapsIntervalResponse)
    requires
        lo < hi <= samples@.len(),
        samples@.len() <= MAX_SAMPLES,
        samples_wf(samples@, SW_COLS as int),
        interval_ok(*iv, swap_strategies(), samples@.subrange(lo as int, hi as int)),
    ensures
        sw_fields_ok(samples@, lo as int, hi as int, row),
{
    let ghost run = samples@.subrange(lo as int, hi as int);
    proof {
        assert(iv.values@.len() == 33);
        lemma_sum_col_bounds(run, SW_TO_ASSET_COUNT as int);
        lemma_sum_col_bounds(run, SW_TO_RUNE_COUNT as int);
        lemma_sum_col_bounds(run, SW_SYNTH_MINT_COUNT as int);
        lemma_sum_col_bounds(run, SW_SYNTH_REDEEM_COUNT as int);
        lemma_sum_col_bounds(run, SW_TO_ASSET_FEES as int);
        lemma_sum_col_bounds(run, SW_TO_RUNE_FEES as int);
        lemma_sum_col_bounds(run, SW_SYNTH_MINT_FEES as int);
        lemma_sum_col_bounds(run, SW_SYNTH_REDEEM_FEES as int);
        lemma_sum_col_bounds(run, SW_TO_ASSET_VOLUME as int);
        lemma_sum_col_bounds(run, SW_TO_RUNE_VOLUME as int);
        lemma_sum_col_bounds(run, SW_SYNTH_MINT_VOLUME as int);
        lemma_sum_col_bounds(run, SW_SYNTH_REDEEM_VOLUME as int);
    }
    let total_count = iv.values[SW_TO_ASSET_COUNT] + iv.values[SW_TO_RUNE_COUNT]
        + iv.values[SW_SYNTH_MINT_COUNT] + iv.values[SW_SYNTH_REDEEM_COUNT];
    let total_fees = iv.values[SW_TO_ASSET_FEES] + iv.values[SW_TO_RUNE_FEES]
        + iv.values[SW_SYNTH_MINT_FEES] + iv.values[SW_SYNTH_REDEEM_FEES];
    let total_volume = iv.values[SW_TO_ASSET_VOLUME] + iv.values[SW_TO_RUNE_VOLUME]
        + iv.values[SW_SYNTH_MINT_VOLUME] + iv.values[SW_SYNTH_REDEEM_VOLUME];
    SwapsIntervalResponse {
        average_slip: fixed_to_dec_string(iv.values[SW_AVERAGE_SLIP]),
        end_time: u128_to_dec_string(iv.end_time as u128),
        from_trade_average_slip: fixed_to_dec_string(iv.values[SW_FROM_TRADE_AVERAGE_SLIP]),
        from_trade_count: u128_to_dec_string(iv.values[SW_FROM_TRADE_COUNT]),
        from_trade_fees: u128_to_dec_string(iv.values[SW_FROM_TRADE_FEES]),
        from_trade_volume: u128_to_dec_string(iv.values[SW_FROM_TRADE_VOLUME]),
        from_trade_volume_usd: fixed_to_dec_string(iv.values[SW_FROM_TRADE_VOLUME_USD]),
        start_time: u128_to_dec_string(iv.start_time as u128),
        rune_price_usd: fixed_to_dec_string(iv.values[SW_RUNE_PRICE_USD]),
        synth_mint_average_slip: fixed_to_dec_string(iv.values[SW_SYNTH_MINT_AVERAGE_SLIP]),
        synth_mint_count: u128_to_dec_string(iv.values[SW_SYNTH_MINT_COUNT]),
        synth_mint_fees: u128_to_dec_string(iv.values[SW_SYNTH_MINT_FEES]),
        synth_mint_volume: u128_to_dec_string(iv.values[SW_SYNTH_MINT_VOLUME]),
        synth_mint_volume_usd: fixed_to_dec_string(iv.values[SW_SYNTH_MINT_VOLUME_USD]),
        synth_redeem_average_slip: fixed_to_dec_string(iv.values[SW_SYNTH_REDEEM_AVERAGE_SLIP]),
        synth_redeem_count: u128_to_dec_string(iv.values[SW_SYNTH_REDEEM_COUNT]),
        synth_redeem_fees: u128_to_dec_string(iv.values[SW_SYNTH_REDEEM_FEES]),
        synth_redeem_volume: u128_to_dec_string(iv.values[SW_SYNTH_REDEEM_VOLUME]),
        synth_redeem_volume_usd: fixed_to_dec_string(iv.values[SW_SYNTH_REDEEM_VOLUME_USD]),
        to_asset_average_slip: fixed_to_dec_string(iv.values[SW_TO_ASSET_AVERAGE_SLIP]),
        to_asset_count: u128_to_dec_string(iv.values[SW_TO_ASSET_COUNT]),
        to_asset_fees: u128_to_dec_string(iv.values[SW_TO_ASSET_FEES]),
        to_asset_volume: u128_to_dec_string(iv.values[SW_TO_ASSET_VOLUME]),
        to_asset_volume_usd: fixed_to_dec_string(iv.values[SW_TO_ASSET_VOLUME_USD]),
        to_rune_average_slip: fixed_to_dec_string(iv.values[SW_TO_RUNE_AVERAGE_SLIP]),
        to_rune_count: u128_to_dec_string(iv.values[SW_TO_RUNE_COUNT]),
        to_rune_fees: u128_to_dec_string(iv.values[SW_TO_RUNE_FEES]),
        to_rune_volume: u128_to_dec_string(iv.values[SW_TO_RUNE_VOLUME]),
        to_rune_volume_usd: fixed_to_dec_string(iv.values[SW_TO_RUNE_VOLUME_USD]),
        to_trade_average_slip: fixed_to_dec_string(iv.values[SW_TO_TRADE_AVERAGE_SLIP]),
        to_trade_count: u128_to_dec_string(iv.values[SW_TO_TRADE_COUNT]),
        to_trade_fees: u128_to_dec_string(iv.values[SW_TO_TRADE_FEES]),
        to_trade_volume: u128_to_dec_string(iv.values[SW_TO_TRADE_VOLUME]),
        to_trade_volume_usd: fixed_to_dec_string(iv.values[SW_TO_TRADE_VOLUME_USD]),
        total_count: u128_to_dec_string(total_count),
        total_fees: u128_to_dec_string(total_fees),
        total_volume: u128_to_dec_string(total_volume),
        total_volume_usd: fixed_to_dec_string(iv.values[SW_TOTAL_VOLUME_USD]),
    }
}

/// Buckets a window of swaps samples and rolls it up.
///
/// Fails with `EmptyWindow` exactly when the window holds no samples;
/// otherwise reports the buckets in ascending order, at most
/// `max_intervals` of them, and a window summary over the samples those
/// buckets cover.
pub fn swaps_history(
    samples: &Vec<RawSample>,
    granularity: Granularity,
    max_intervals: usize,
) -> (r: Result<SwapResponse, HistoryError>)
    requires
        samples_wf(samples@, SW_COLS as int),
        sorted_by_start(samples@),
        samples@.len() <= MAX_SAMPLES,
        1 <= max_intervals <= 400,
    ensures
        r is Err <==> samples@.len() == 0,
        r is Err ==> r->Err_0 == HistoryError::EmptyWindow,
        r is Ok ==> sw_response_ok(samples@, granularity, max_intervals as int, r->Ok_0),
{
    if samples.len() == 0 {
        return Err(HistoryError::EmptyWindow);
    }
    proof {
        lemma_starts_props(samples@, granularity, samples@.len() as int);
    }
    let strategies = swap_strategy_vec();
    let bs = partition_starts(samples, granularity);
    let ghost su = bucket_starts(samples@, granularity);
    let nb = if bs.len() < max_intervals {
        bs.len()
    } else {
        max_intervals
    };
    let mut intervals: Vec<SwapsIntervalResponse> = Vec::new();
    let mut acc_slip: u128 = 0;
    let mut acc_from_trade: u128 = 0;
    let mut acc_synth_mint: u128 = 0;
    let mut acc_synth_redeem: u128 = 0;
    let mut acc_to_asset: u128 = 0;
    let mut acc_to_rune: u128 = 0;
    let mut acc_to_trade: u128 = 0;
    let mut j: usize = 0;
    while j < nb
        invariant
            0 <= j <= nb,
            nb <= bs@.len(),
            nb == reported_buckets(samples@, granularity, max_intervals as int),
            1 <= max_intervals <= 400,
            nb <= max_intervals,
            bs@.map_values(|x: usize| x as int) == su,
            su == bucket_starts(samples@, granularity),
            samples_wf(samples@, SW_COLS as int),
            samples@.len() > 0,
            samples@.len() <= MAX_SAMPLES,
            strategies@ == swap_strategies(),
            forall|p: int| 0 <= p < su.len() ==> 0 <= #[trigger] su[p] < samples@.len(),
            forall|p: int, q: int| 0 <= p < q < su.len() ==> su[p] < su[q],
            intervals@.len() == j,
            forall|k: int|
                0 <= k < j ==> sw_interval_ok(samples@, granularity, k, intervals@[k]),
            acc_slip as int == sw_bucket_vals_sum(
                samples@,
                granularity,
                SW_AVERAGE_SLIP as int,
                j as int,
            ),
            acc_from_trade as int == sw_bucket_vals_sum(
                samples@,
                granularity,
                SW_FROM_TRADE_AVERAGE_SLIP as int,
                j as int,
            ),
            acc_synth_mint as int == sw_bucket_vals_sum(
                samples@,
                granularity,
                SW_SYNTH_MINT_AVERAGE_SLIP as int,
                j as int,
            ),
            acc_synth_redeem as int == sw_bucket_vals_sum(
                samples@,
                granularity,
                SW_SYNTH_REDEEM_AVERAGE_SLIP as int,
                j as int,
            ),
            acc_to_asset as int == sw_bucket_vals_sum(
                samples@,
                granularity,
                SW_TO_ASSET_AVERAGE_SLIP as int,
                j as int,
            ),
            acc_to_rune as int == sw_bucket_vals_sum(
                samples@,
                granularity,
                SW_TO_RUNE_AVERAGE_SLIP as int,
                j as int,
            ),
            acc_to_trade as int == sw_bucket_vals_sum(
                samples@,
                granularity,
                SW_TO_TRADE_AVERAGE_SLIP as int,
                j as int,
            ),
            acc_slip <= j * 0xffff_ffff_ffff_ffff,
            acc_from_trade <= j * 0xffff_ffff_ffff_ffff,
            acc_synth_mint <= j * 0xffff_ffff_ffff_ffff,
            acc_synth_redeem <= j * 0xffff_ffff_ffff_ffff,
            acc_to_asset <= j * 0xffff_ffff_ffff_ffff,
            acc_to_rune <= j * 0xffff_ffff_ffff_ffff,
            acc_to_trade <= j * 0xffff_ffff_ffff_ffff,
        decreases nb - j,
    {
        let lo = bs[j];
        let hi = if j + 1 < bs.len() {
            bs[j + 1]
        } else {
            samples.len()
        };
        proof {
            assert(lo as int == su[j as int]);
            assert(hi as int == seg_end(samples@, granularity, j as int));
        }
        let iv = aggregate_range(samples, lo, hi, &strategies);
        let ghost run = samples@.subrange(lo as int, hi as int);
        proof {
            assert(iv.values@.len() == 33);
            crate::engine::lemma_mean_bounded(run, SW_AVERAGE_SLIP as int);
            crate::engine::lemma_mean_bounded(run, SW_FROM_TRADE_AVERAGE_SLIP as int);
            crate::engine::lemma_mean_bounded(run, SW_SYNTH_MINT_AVERAGE_SLIP as int);
            crate::engine::lemma_mean_bounded(run, SW_SYNTH_REDEEM_AVERAGE_SLIP as int);
            crate::engine::lemma_mean_bounded(run, SW_TO_ASSET_AVERAGE_SLIP as int);
            crate::engine::lemma_mean_bounded(run, SW_TO_RUNE_AVERAGE_SLIP as int);
            crate::engine::lemma_mean_bounded(run, SW_TO_TRADE_AVERAGE_SLIP as int);
            assert(j * 0xffff_ffff_ffff_ffff + 0xffff_ffff_ffff_ffff == (j + 1)
                * 0xffff_ffff_ffff_ffff) by (nonlinear_arith);
            assert((j + 1) * 0xffff_ffff_ffff_ffff <= 400 * 0xffff_ffff_ffff_ffff)
                by (nonlinear_arith)
                requires
                    0 <= j + 1 <= 400,
            ;
        }
        let row = build_swap_row(samples, lo, hi, &iv);
        intervals.push(row);
        acc_slip = acc_slip + iv.values[SW_AVERAGE_SLIP];
        acc_from_trade = acc_from_trade + iv.values[SW_FROM_TRADE_AVERAGE_SLIP];
        acc_synth_mint = acc_synth_mint + iv.values[SW_SYNTH_MINT_AVERAGE_SLIP];
        acc_synth_redeem = acc_synth_redeem + iv.values[SW_SYNTH_REDEEM_AVERAGE_SLIP];
        acc_to_asset = acc_to_asset + iv.values[SW_TO_ASSET_AVERAGE_SLIP];
        acc_to_rune = acc_to_rune + iv.values[SW_TO_RUNE_AVERAGE_SLIP];
        acc_to_trade = acc_to_trade + iv.values[SW_TO_TRADE_AVERAGE_SLIP];
        j = j + 1;
    }
    let end = if nb < bs.len() {
        bs[nb]
    } else {
        samples.len()
    };
    proof {
        assert(end as int == included_end(samples@, granularity, max_intervals as int));
    }
    let window_iv = aggregate_range(samples, 0, end, &strategies);
    let window = build_swap_row(samples, 0, end, &window_iv);
    let cursor = u128_to_dec_string(samples[end - 1].end_time as u128);
    let nb_wide = nb as u128;
    let SwapsIntervalResponse {
        average_slip: _,
        end_time,
        from_trade_average_slip: _,
        from_trade_count,
        from_trade_fees,
        from_trade_volume,
        from_trade_volume_usd,
        start_time,
        rune_price_usd,
        synth_mint_average_slip: _,
        synth_mint_count,
        synth_mint_fees,
        synth_mint_volume,
        synth_mint_volume_usd,
        synth_redeem_average_slip: _,
        synth_redeem_count,
        synth_redeem_fees,
        synth_redeem_volume,
        synth_redeem_volume_usd,
        to_asset_average_slip: _,
        to_asset_count,
        to_asset_fees,
        to_asset_volume,
        to_asset_volume_usd,
        to_rune_average_slip: _,
        to_rune_count,
        to_rune_fees,
        to_rune_volume,
        to_rune_volume_usd,
        to_trade_average_slip: _,
        to_trade_count,
        to_trade_fees,
        to_trade_volume,
        to_trade_volume_usd,
        total_count,
        total_fees,
        total_volume,
        total_volume_usd,
    } = window;
    let meta = SwapsMeta {
        average_slip: fixed_to_dec_string(acc_slip / nb_wide),
        end_time,
        from_trade_average_slip: fixed_to_dec_string(acc_from_trade / nb_wide),
        from_trade_count,
        from_trade_fees,
        from_trade_volume,
        from_trade_volume_usd,
        rune_price_usd,
        start_time,
        synth_mint_average_slip: fixed_to_dec_string(acc_synth_mint / nb_wide),
        synth_mint_count,
        synth_mint_fees,
        synth_mint_volume,
        synth_mint_volume_usd,
        synth_redeem_average_slip: fixed_to_dec_string(acc_synth_redeem / nb_wide),
        synth_redeem_count,
        synth_redeem_fees,
        synth_redeem_volume,
        synth_redeem_volume_usd,
        to_asset_average_slip: fixed_to_dec_string(acc_to_asset / nb_wide),
        to_asset_count,
        to_asset_fees,
        to_asset_volume,
        to_asset_volume_usd,
        to_rune_average_slip: fixed_to_dec_string(acc_to_rune / nb_wide),
        to_rune_count,
        to_rune_fees,
        to_rune_volume,
        to_rune_volume_usd,
        to_trade_average_slip: fixed_to_dec_string(acc_to_trade / nb_wide),
        to_trade_count,
        to_trade_fees,
        to_trade_volume,
        to_trade_volume_usd,
        total_count,
        total_fees,
        total_volume,
        total_volume_usd,
        next: Some(cursor),
    };
    Ok(SwapResponse { intervals, meta })
}

/// Field-for-field agreement of two swaps rows.
pub open spec fn sw_row_eq(r1: SwapsIntervalResponse, r2: SwapsIntervalResponse) -> bool {
    &&& r1.average_slip@ == r2.average_slip@
    &&& r1.end_time@ == r2.end_time@
    &&& r1.from_trade_average_slip@ == r2.from_trade_average_slip@
    &&& r1.from_trade_count@ == r2.from_trade_count@
    &&& r1.from_trade_fees@ == r2.from_trade_fees@
    &&& r1.from_trade_volume@ == r2.from_trade_volume@
    &&& r1.from_trade_volume_usd@ == r2.from_trade_volume_usd@
    &&& r1.start_time@ == r2.start_time@
    &&& r1.rune_price_usd@ == r2.rune_price_usd@
    &&& r1.synth_mint_average_slip@ == r2.synth_mint_average_slip@
    &&& r1.synth_mint_count@ == r2.synth_mint_count@
    &&& r1.synth_mint_fees@ == r2.synth_mint_fees@
    &&& r1.synth_mint_volume@ == r2.synth_mint_volume@
    &&& r1.synth_mint_volume_usd@ == r2.synth_mint_volume_usd@
    &&& r1.synth_redeem_average_slip@ == r2.synth_redeem_average_slip@
    &&& r1.synth_redeem_count@ == r2.synth_redeem_count@
    &&& r1.synth_redeem_fees@ == r2.synth_redeem_fees@
    &&& r1.synth_redeem_volume@ == r2.synth_redeem_volume@
    &&& r1.synth_redeem_volume_usd@ == r2.synth_redeem_volume_usd@
    &&& r1.to_asset_average_slip@ == r2.to_asset_average_slip@
    &&& r1.to_asset_count@ == r2.to_asset_count@
    &&& r1.to_asset_fees@ == r2.to_asset_fees@
    &&& r1.to_asset_volume@ == r2.to_asset_volume@
    &&& r1.to_asset_volume_usd@ == r2.to_asset_volume_usd@
    &&& r1.to_rune_average_slip@ == r2.to_rune_average_slip@
    &&& r1.to_rune_count@ == r2.to_rune_count@
    &&& r1.to_rune_fees@ == r2.to_rune_fees@
    &&& r1.to_rune_volume@ == r2.to_rune_volume@
    &&& r1.to_rune_volume_usd@ == r2.to_rune_volume_usd@
    &&& r1.to_trade_average_slip@ == r2.to_trade_average_slip@
    &&& r1.to_trade_count@ == r2.to_trade_count@
    &&& r1.to_trade_fees@ == r2.to_trade_fees@
    &&& r1.to_trade_volume@ == r2.to_trade_volume@
    &&& r1.to_trade_volume_usd@ == r2.to_trade_volume_usd@
    &&& r1.total_count@ == r2.total_count@
    &&& r1.total_fees@ == r2.total_fees@
    &&& r1.total_volume@ == r2.total_volume@
    &&& r1.total_volume_usd@ == r2.total_volume_usd@
}

/// Law: aggregation is deterministic — on one immutable sample set and
/// window, any two responses meeting the contract agree row for row,
/// field for field.
pub proof fn lemma_swaps_deterministic(
    s: Seq<RawSample>,
    g: Granularity,
    max: int,
    r1: SwapResponse,
    r2: SwapResponse,
)
    requires
        s.len() > 0,
        sw_response_ok(s, g, max, r1),
        sw_response_ok(s, g, max, r2),
    ensures
        r1.intervals@.len() == r2.intervals@.len(),
        forall|j: int|
            0 <= j < r1.intervals@.len() ==> sw_row_eq(
                #[trigger] r1.intervals@[j],
                r2.intervals@[j],
            ),
        r1.meta.total_count@ == r2.meta.total_count@,
        r1.meta.total_fees@ == r2.meta.total_fees@,
        r1.meta.total_volume@ == r2.meta.total_volume@,
        r1.meta.average_slip@ == r2.meta.average_slip@,
        r1.meta.start_time@ == r2.meta.start_time@,
        r1.meta.end_time@ == r2.meta.end_time@,
        (r1.meta.next matches Some(p1) && (r2.meta.next matches Some(p2) && p1@ == p2@)),
{
}

/// Law: every cumulative swaps column of the window summary equals the
/// sum of that column across the reported bucket rows — the additive
/// round trip, with no double counting and no omission.
pub proof fn lemma_swaps_window_totals(s: Seq<RawSample>, g: Granularity, max: int, c: int)
    requires
        s.len() > 0,
        0 <= max,
        0 <= c < SW_COLS,
        swap_strategies()[c] is Cumulative,
    ensures
        sw_val(s, 0, included_end(s, g, max), c) == crate::engine::buckets_sum_upto(
            s,
            g,
            c,
            reported_buckets(s, g, max),
        ),
{
    let nb = reported_buckets(s, g, max);
    let end = included_end(s, g, max);
    crate::engine::lemma_starts_props(s, g, s.len() as int);
    crate::engine::lemma_window_sum_is_bucket_sums(s, g, c, nb);
    assert(s.subrange(0, end) == s.take(end));
}

/// Law: each row's grand totals are exactly the sum of their category
/// parts — the to-asset, to-rune and synth-mint sub-totals plus the
/// synth-redeem running sum.
pub proof fn lemma_swap_totals_are_category_sums(s: Seq<RawSample>, lo: int, hi: int)
    ensures
        sw_total_count(s, lo, hi) == sw_val(s, lo, hi, SW_TO_ASSET_COUNT as int) + sw_val(
            s,
            lo,
            hi,
            SW_TO_RUNE_COUNT as int,
        ) + sw_val(s, lo, hi, SW_SYNTH_MINT_COUNT as int) + sw_val(
            s,
            lo,
            hi,
            SW_SYNTH_REDEEM_COUNT as int,
        ),
{
}

} // verus!

use runehistory::depth::depth_history;
use runehistory::depth::DP_ASSET_DEPTH;
use runehistory::depth::DP_COLS;
use runehistory::depth::DP_LUVI;
use runehistory::earnings::check_earnings_samples;
use runehistory::earnings::earnings_history;
use runehistory::earnings::EarningsSample;
use runehistory::earnings::PoolRow;
use runehistory::engine::partition_starts;
use runehistory::errors::HistoryError;
use runehistory::granularity::Granularity;
use runehistory::runepool::runepool_history;
use runehistory::runepool::RP_COLS;
use runehistory::runepool::RP_COUNT;
use runehistory::runepool::RP_UNITS;
use runehistory::sample::RawSample;
use runehistory::swaps::swaps_history;
use runehistory::swaps::SW_AVERAGE_SLIP;
use runehistory::swaps::SW_COLS;
use runehistory::swaps::SW_RUNE_PRICE_USD;
use runehistory::swaps::SW_SYNTH_MINT_COUNT;
use runehistory::swaps::SW_SYNTH_REDEEM_COUNT;
use runehistory::swaps::SW_TO_ASSET_COUNT;
use runehistory::swaps::SW_TO_ASSET_VOLUME;
use runehistory::swaps::SW_TO_RUNE_COUNT;

// 2024-01-01T10:00, 2024-01-01T14:00, 2024-01-02T09:00.
const T1: u64 = 1_704_103_200;
const T2: u64 = 1_704_117_600;
const T3: u64 = 1_704_186_000;

fn depth_sample(start: u64, asset_depth: u64, luvi: u64) -> RawSample {
    let mut m = vec![0u64; DP_COLS];
    m[DP_ASSET_DEPTH] = asset_depth;
    m[DP_LUVI] = luvi;
    RawSample { start_time: start, end_time: start + 300, measures: m }
}

#[test]
fn three_depth_samples_make_two_day_buckets() {
    let samples = vec![
        depth_sample(T1, 100, 2_00000000),
        depth_sample(T2, 150, 2_50000000),
        depth_sample(T3, 200, 3_00000000),
    ];
    let r = depth_history(&samples, Granularity::Day, 400).unwrap();
    assert_eq!(r.intervals.len(), 2);
    assert_eq!(r.intervals[0].asset_depth, "150");
    assert_eq!(r.intervals[0].start_time, T1.to_string());
    assert_eq!(r.intervals[1].asset_depth, "200");
    // Whole-window ratio: last over first observation, 200 / 100.
    assert_eq!(r.meta.price_shift_loss, "2.00000000");
    assert_eq!(r.meta.luvi_increase, "1.50000000");
    assert_eq!(r.meta.start_asset_depth, "100");
    assert_eq!(r.meta.end_asset_depth, "200");
    assert_eq!(r.meta.next_page, Some((T3 + 300).to_string()));
}

#[test]
fn empty_window_is_an_error_not_an_empty_payload() {
    let samples: Vec<RawSample> = Vec::new();
    let r = depth_history(&samples, Granularity::Day, 400);
    assert!(matches!(r, Err(HistoryError::EmptyWindow)));
    let rp = runepool_history(&Vec::new(), Granularity::Day, 400);
    assert!(matches!(rp, Err(HistoryError::EmptyWindow)));
    let sw = swaps_history(&Vec::new(), Granularity::Day, 400);
    assert!(matches!(sw, Err(HistoryError::EmptyWindow)));
    let ea = earnings_history(&Vec::new(), Granularity::Day, 400);
    assert!(matches!(ea, Err(HistoryError::EmptyWindow)));
}

#[test]
fn gapless_hourly_samples_give_one_bucket_per_day() {
    let mut samples = Vec::new();
    let days = 5u64;
    for h in 0..(days * 24) {
        let start = h * 3600;
        let mut m = vec![0u64; RP_COLS];
        m[RP_UNITS] = h;
        m[RP_COUNT] = 1;
        samples.push(RawSample { start_time: start, end_time: start + 3600, measures: m });
    }
    let r = runepool_history(&samples, Granularity::Day, 400).unwrap();
    assert_eq!(r.intervals.len(), days as usize);
    // The cap still applies.
    let capped = runepool_history(&samples, Granularity::Day, 3).unwrap();
    assert_eq!(capped.intervals.len(), 3);
    // The capped window summary covers only the reported buckets.
    assert_eq!(capped.meta.end_units, (3 * 24 - 1).to_string());
    assert_eq!(capped.meta.next_page, Some((3 * 24 * 3600).to_string()));
}

#[test]
fn ratios_are_zero_on_zero_first_observation() {
    let samples = vec![depth_sample(T1, 0, 0), depth_sample(T3, 500, 7_00000000)];
    let r = depth_history(&samples, Granularity::Day, 400).unwrap();
    assert_eq!(r.meta.price_shift_loss, "0.00000000");
    assert_eq!(r.meta.luvi_increase, "0.00000000");
}

#[test]
fn runepool_buckets_report_last_observation() {
    let mk = |start: u64, units: u64, count: u64| {
        let mut m = vec![0u64; RP_COLS];
        m[RP_UNITS] = units;
        m[RP_COUNT] = count;
        RawSample { start_time: start, end_time: start + 600, measures: m }
    };
    let samples = vec![mk(T1, 10, 2), mk(T2, 11, 3), mk(T3, 12, 4)];
    let r = runepool_history(&samples, Granularity::Day, 400).unwrap();
    assert_eq!(r.intervals.len(), 2);
    assert_eq!(r.intervals[0].units, "11");
    assert_eq!(r.intervals[0].count, "3");
    assert_eq!(r.intervals[1].units, "12");
    assert_eq!(r.meta.start_units, "10");
    assert_eq!(r.meta.start_count, "2");
    assert_eq!(r.meta.end_units, "12");
    assert_eq!(r.meta.end_count, "4");
}

fn swap_sample(start: u64, slip: u64, price: u64, to_asset: u64, to_rune: u64) -> RawSample {
    let mut m = vec![0u64; SW_COLS];
    m[SW_AVERAGE_SLIP] = slip;
    m[SW_RUNE_PRICE_USD] = price;
    m[SW_TO_ASSET_COUNT] = to_asset;
    m[SW_TO_RUNE_COUNT] = to_rune;
    m[SW_SYNTH_MINT_COUNT] = 4;
    m[SW_SYNTH_REDEEM_COUNT] = 1;
    m[SW_TO_ASSET_VOLUME] = 1000;
    RawSample { start_time: start, end_time: start + 300, measures: m }
}

#[test]
fn swaps_sum_flows_and_average_slips() {
    let samples = vec![
        swap_sample(T1, 1_00000000, 5_00000000, 2, 3),
        swap_sample(T2, 2_00000000, 6_00000000, 8, 7),
    ];
    let r = swaps_history(&samples, Granularity::Day, 400).unwrap();
    assert_eq!(r.intervals.len(), 1);
    let iv = &r.intervals[0];
    // Counts are flows: summed across the bucket.
    assert_eq!(iv.to_asset_count, "10");
    assert_eq!(iv.to_rune_count, "10");
    // Slips are averaged across the bucket.
    assert_eq!(iv.average_slip, "1.50000000");
    // Prices are stocks: the bucket's last observation.
    assert_eq!(iv.rune_price_usd, "6.00000000");
    // Totals are the category parts: 10 + 10 + (4 + 4) + (1 + 1).
    assert_eq!(iv.total_count, "30");
    assert_eq!(iv.total_volume, "2000");
    // A one-bucket window has the same roll-up in its summary.
    assert_eq!(r.meta.total_count, "30");
    assert_eq!(r.meta.average_slip, "1.50000000");
    assert_eq!(r.meta.next, Some((T2 + 300).to_string()));
}

fn earnings_sample(start: u64, fees: u64, price: u64, pools: Vec<PoolRow>) -> EarningsSample {
    EarningsSample {
        start_time: start,
        end_time: start + 300,
        liquidity_fees: fees,
        block_rewards: 2,
        earnings: 3,
        bonding_earnings: 4,
        liquidity_earnings: 5,
        rune_price_usd: price,
        pools,
    }
}

fn pool_row(pool: u64, fees: u64) -> PoolRow {
    PoolRow {
        pool,
        asset_liquidity_fees: fees,
        rune_liquidity_fees: fees + 1,
        total_liquidity_fees_rune: fees + 2,
        saver_earning: 0,
        rewards: 0,
        earnings: fees * 2,
    }
}

#[test]
fn earnings_pools_merge_by_key_in_first_seen_order() {
    let samples = vec![
        earnings_sample(T1, 100, 5_00000000, vec![pool_row(1, 10), pool_row(2, 20)]),
        earnings_sample(T2, 50, 6_00000000, vec![pool_row(2, 5), pool_row(3, 7)]),
    ];
    let r = earnings_history(&samples, Granularity::Day, 400).unwrap();
    assert_eq!(r.intervals.len(), 1);
    let iv = &r.intervals[0];
    assert_eq!(iv.liquidity_fees, "150");
    assert_eq!(iv.rune_price_usd, "6.00000000");
    assert_eq!(iv.pools.len(), 3);
    assert_eq!(iv.pools[0].pool, 1);
    assert_eq!(iv.pools[1].pool, 2);
    assert_eq!(iv.pools[2].pool, 3);
    assert_eq!(iv.pools[1].asset_liquidity_fees, "25");
    assert_eq!(iv.pools[1].earnings, "50");
    assert_eq!(iv.avg_node_count, "3");
    // One bucket of three pools: the window mean is 3.
    assert_eq!(r.meta.avg_node_count, "3.00000000");
    assert_eq!(r.meta.liquidity_fees, "150");
}

#[test]
fn earnings_window_merges_pools_across_buckets() {
    let samples = vec![
        earnings_sample(T1, 10, 1_00000000, vec![pool_row(7, 100)]),
        earnings_sample(T3, 20, 2_00000000, vec![pool_row(7, 40), pool_row(9, 1)]),
    ];
    let r = earnings_history(&samples, Granularity::Day, 400).unwrap();
    assert_eq!(r.intervals.len(), 2);
    assert_eq!(r.intervals[0].pools.len(), 1);
    assert_eq!(r.intervals[1].pools.len(), 2);
    assert_eq!(r.meta.pools.len(), 2);
    assert_eq!(r.meta.pools[0].pool, 7);
    assert_eq!(r.meta.pools[0].asset_liquidity_fees, "140");
    assert_eq!(r.meta.pools[1].pool, 9);
    // Bucket node counts 1 and 2: the window mean is 1.5.
    assert_eq!(r.meta.avg_node_count, "1.50000000");
}

#[test]
fn earnings_gate_accepts_only_sorted_well_formed_windows() {
    let good = vec![
        earnings_sample(T1, 1, 0, vec![pool_row(1, 1)]),
        earnings_sample(T2, 2, 0, vec![]),
    ];
    assert!(check_earnings_samples(&good));
    let unsorted = vec![
        earnings_sample(T2, 1, 0, vec![]),
        earnings_sample(T1, 2, 0, vec![]),
    ];
    assert!(!check_earnings_samples(&unsorted));
    let mut inverted = earnings_sample(T1, 1, 0, vec![]);
    inverted.end_time = T1 - 1;
    assert!(!check_earnings_samples(&vec![inverted]));
}

#[test]
fn aggregation_is_idempotent_on_an_immutable_window() {
    let samples = vec![
        depth_sample(T1, 100, 2_00000000),
        depth_sample(T2, 150, 2_50000000),
        depth_sample(T3, 200, 3_00000000),
    ];
    let a = depth_history(&samples, Granularity::Day, 400).unwrap();
    let b = depth_history(&samples, Granularity::Day, 400).unwrap();
    assert_eq!(a.intervals.len(), b.intervals.len());
    for (x, y) in a.intervals.iter().zip(b.intervals.iter()) {
        assert_eq!(x.asset_depth, y.asset_depth);
        assert_eq!(x.start_time, y.start_time);
        assert_eq!(x.end_time, y.end_time);
        assert_eq!(x.luvi, y.luvi);
    }
    assert_eq!(a.meta.price_shift_loss, b.meta.price_shift_loss);
    assert_eq!(a.meta.luvi_increase, b.meta.luvi_increase);
    assert_eq!(a.meta.next_page, b.meta.next_page);
}

#[test]
fn every_sample_lands_in_exactly_one_bucket() {
    let samples = vec![
        depth_sample(T1, 1, 0),
        depth_sample(T2, 2, 0),
        depth_sample(T3, 3, 0),
        depth_sample(T3 + 60, 4, 0),
    ];
    let starts = partition_starts(&samples, Granularity::Day);
    assert_eq!(starts, vec![0, 2]);
    let hourly = partition_starts(&samples, Granularity::Hour);
    assert_eq!(hourly, vec![0, 1, 2]);
    let yearly = partition_starts(&samples, Granularity::Year);
    assert_eq!(yearly, vec![0]);
}

#[test]
fn equal_start_times_keep_stored_order() {
    // Two samples share a start instant; the first stored row is the
    // bucket's first boundary, the last stored row its last.
    let mut a = depth_sample(T1, 100, 0);
    let mut b = depth_sample(T1, 900, 0);
    a.end_time = T1 + 100;
    b.end_time = T1 + 200;
    let samples = vec![a, b];
    let r = depth_history(&samples, Granularity::Day, 400).unwrap();
    assert_eq!(r.intervals.len(), 1);
    assert_eq!(r.intervals[0].asset_depth, "900");
    assert_eq!(r.meta.start_asset_depth, "100");
    assert_eq!(r.meta.end_time, (T1 + 200).to_string());
}

#[test]
fn window_slip_mean_weights_buckets_equally() {
    // One bucket of one sample (slip 0) and one of two samples (slips
    // 6.0 each): the per-bucket means are 0.0 and 6.0, so the window
    // summary reads their mean, 3.0 — not the per-sample mean 4.0.
    let samples = vec![
        swap_sample(T1, 0, 0, 1, 1),
        swap_sample(T3, 6_00000000, 0, 1, 1),
        swap_sample(T3 + 60, 6_00000000, 0, 1, 1),
    ];
    let r = swaps_history(&samples, Granularity::Day, 400).unwrap();
    assert_eq!(r.intervals.len(), 2);
    assert_eq!(r.intervals[0].average_slip, "0.00000000");
    assert_eq!(r.intervals[1].average_slip, "6.00000000");
    assert_eq!(r.meta.average_slip, "3.00000000");
}

#[test]
fn window_totals_equal_the_sum_of_bucket_totals() {
    let samples = vec![
        swap_sample(0, 0, 0, 1, 2),
        swap_sample(3600, 0, 0, 3, 4),
        swap_sample(86_400, 0, 0, 5, 6),
        swap_sample(2 * 86_400, 0, 0, 7, 8),
    ];
    let r = swaps_history(&samples, Granularity::Day, 400).unwrap();
    assert_eq!(r.intervals.len(), 3);
    let bucket_sum: u64 = r
        .intervals
        .iter()
        .map(|iv| iv.to_asset_count.parse::<u64>().unwrap())
        .sum();
    assert_eq!(bucket_sum, 16);
    assert_eq!(r.meta.to_asset_count, "16");
}

#[test]
fn bucket_count_is_capped_at_four_hundred() {
    let mut samples = Vec::new();
    for d in 0..401u64 {
        let mut m = vec![0u64; RP_COLS];
        m[RP_UNITS] = d;
        m[RP_COUNT] = 1;
        samples.push(RawSample {
            start_time: d * 86_400,
            end_time: d * 86_400 + 60,
            measures: m,
        });
    }
    let r = runepool_history(&samples, Granularity::Day, 400).unwrap();
    assert_eq!(r.intervals.len(), 400);
    assert_eq!(r.meta.end_units, "399");
}

#[test]
fn month_granularity_splits_at_month_boundaries() {
    let feb_start: u64 = (19723 + 31) * 86_400;
    let samples = vec![
        depth_sample(T1, 10, 0),
        depth_sample(T3, 20, 0),
        depth_sample(feb_start, 30, 0),
        depth_sample(feb_start + 86_400, 40, 0),
    ];
    let r = depth_history(&samples, Granularity::Month, 400).unwrap();
    assert_eq!(r.intervals.len(), 2);
    assert_eq!(r.intervals[0].asset_depth, "20");
    assert_eq!(r.intervals[1].asset_depth, "40");
    let w = depth_history(&samples, Granularity::Week, 400).unwrap();
    // 2024-01-01 (Monday) and 2024-01-02 share one ISO week;
    // 2024-02-01 (Thursday) and 2024-02-02 share another.
    assert_eq!(w.intervals.len(), 2);
}

#[test]
fn hour_granularity_splits_within_a_day() {
    let samples = vec![
        depth_sample(T1, 100, 1_00000000),
        depth_sample(T2, 150, 1_00000000),
        depth_sample(T3, 200, 1_00000000),
    ];
    let r = depth_history(&samples, Granularity::Hour, 400).unwrap();
    assert_eq!(r.intervals.len(), 3);
    let y = depth_history(&samples, Granularity::Year, 400).unwrap();
    assert_eq!(y.intervals.len(), 1);
    assert_eq!(y.intervals[0].asset_depth, "200");
}

use runehistory::bucket::bucket_key;
use runehistory::granularity::granularity_from_text;
use runehistory::granularity::Granularity;
use runehistory::sample::check_samples;
use runehistory::sample::RawSample;

#[test]
fn recognised_granularities_parse() {
    assert_eq!(granularity_from_text("hour"), Granularity::Hour);
    assert_eq!(granularity_from_text("day"), Granularity::Day);
    assert_eq!(granularity_from_text("week"), Granularity::Week);
    assert_eq!(granularity_from_text("month"), Granularity::Month);
    assert_eq!(granularity_from_text("year"), Granularity::Year);
}

#[test]
fn unknown_granularity_falls_back_to_day() {
    assert_eq!(granularity_from_text("fortnight"), Granularity::Day);
    assert_eq!(granularity_from_text(""), Granularity::Day);
    assert_eq!(granularity_from_text("HOUR"), Granularity::Day);
}

#[test]
fn bucket_keys_follow_the_calendar() {
    // 2024-01-01T10:00:00Z.
    let ts: u64 = 1_704_103_200;
    assert_eq!(bucket_key(ts, Granularity::Hour), ts / 3600);
    assert_eq!(bucket_key(ts, Granularity::Day), 19723);
    assert_eq!(bucket_key(ts, Granularity::Week), (19723 + 3) / 7);
    assert_eq!(bucket_key(ts, Granularity::Month), 2024 * 12);
    assert_eq!(bucket_key(ts, Granularity::Year), 2024);
}

#[test]
fn month_keys_change_at_month_boundaries() {
    // 2024-01-31T23:59:59Z and 2024-02-01T00:00:00Z.
    let jan_end: u64 = (19723 + 30) * 86400 + 86399;
    let feb_start: u64 = (19723 + 31) * 86400;
    assert_eq!(bucket_key(jan_end, Granularity::Month), 2024 * 12);
    assert_eq!(bucket_key(feb_start, Granularity::Month), 2024 * 12 + 1);
    // February 2024 has 29 days; 2024-03-01 starts a new month bucket.
    let mar_start: u64 = (19723 + 31 + 29) * 86400;
    assert_eq!(bucket_key(mar_start, Granularity::Month), 2024 * 12 + 2);
}

#[test]
fn boundary_sample_belongs_to_its_own_day() {
    let midnight: u64 = 19724 * 86400;
    assert_eq!(bucket_key(midnight, Granularity::Day), 19724);
    assert_eq!(bucket_key(midnight - 1, Granularity::Day), 19723);
}

#[test]
fn epoch_start_keys() {
    assert_eq!(bucket_key(0, Granularity::Day), 0);
    assert_eq!(bucket_key(0, Granularity::Month), 1970 * 12);
    assert_eq!(bucket_key(0, Granularity::Year), 1970);
}

#[test]
fn check_samples_accepts_sorted_well_formed_windows() {
    let samples = vec![
        RawSample { start_time: 10, end_time: 20, measures: vec![1, 2] },
        RawSample { start_time: 20, end_time: 30, measures: vec![3, 4] },
    ];
    assert!(check_samples(&samples, 2));
    assert!(!check_samples(&samples, 3));
}

#[test]
fn check_samples_rejects_unsorted_windows() {
    let samples = vec![
        RawSample { start_time: 30, end_time: 40, measures: vec![1, 2] },
        RawSample { start_time: 20, end_time: 30, measures: vec![3, 4] },
    ];
    assert!(!check_samples(&samples, 2));
}

#[test]
fn check_samples_rejects_inverted_ranges() {
    let samples = vec![RawSample { start_time: 50, end_time: 40, measures: vec![1, 2] }];
    assert!(!check_samples(&samples, 2));
}

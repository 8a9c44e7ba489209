use runehistory::errors::HistoryError;
use runehistory::ingest::ingest_decision;
use runehistory::ingest::IngestDecision;
use runehistory::numtext::fixed_to_dec_string;
use runehistory::numtext::parse_u64_dec;
use runehistory::numtext::u128_to_dec_string;
use runehistory::queries::getswapquery;
use runehistory::ratio::ratio_scaled;
use runehistory::request::count_in_range;
use runehistory::request::cursor_from_text;
use runehistory::request::derive_from;

#[test]
fn decimal_text_is_exact() {
    assert_eq!(u128_to_dec_string(0), "0");
    assert_eq!(u128_to_dec_string(7), "7");
    assert_eq!(u128_to_dec_string(1_234_567_890_123_456_789), "1234567890123456789");
    assert_eq!(u128_to_dec_string(u128::from(u64::MAX)), "18446744073709551615");
}

#[test]
fn fixed_point_text_carries_eight_fraction_digits() {
    assert_eq!(fixed_to_dec_string(0), "0.00000000");
    assert_eq!(fixed_to_dec_string(100_000_000), "1.00000000");
    assert_eq!(fixed_to_dec_string(250_000_000), "2.50000000");
    assert_eq!(fixed_to_dec_string(123), "0.00000123");
    assert_eq!(fixed_to_dec_string(1_050_000_001), "10.50000001");
}

#[test]
fn ratio_divides_at_scale_eight() {
    assert_eq!(ratio_scaled(200, 100), 200_000_000);
    assert_eq!(ratio_scaled(1, 3), 33_333_333);
    assert_eq!(ratio_scaled(3, 2), 150_000_000);
}

#[test]
fn ratio_with_zero_denominator_is_zero() {
    assert_eq!(ratio_scaled(0, 0), 0);
    assert_eq!(ratio_scaled(12345, 0), 0);
    assert_eq!(ratio_scaled(u64::MAX, 0), 0);
}

#[test]
fn cursor_parsing_accepts_exactly_decimal_instants() {
    assert_eq!(parse_u64_dec("123"), Some(123));
    assert_eq!(parse_u64_dec("007"), Some(7));
    assert_eq!(parse_u64_dec("18446744073709551615"), Some(u64::MAX));
    assert_eq!(parse_u64_dec("18446744073709551616"), None);
    assert_eq!(parse_u64_dec(""), None);
    assert_eq!(parse_u64_dec("12a"), None);
    assert_eq!(parse_u64_dec("-5"), None);
}

#[test]
fn malformed_cursor_degrades_to_invalid_marker() {
    assert_eq!(cursor_from_text("1704103200"), "1704103200");
    assert_eq!(cursor_from_text("0042"), "42");
    assert_eq!(cursor_from_text("2024-01-01 10:00:00 UTC"), "Invalid timestamp");
    assert_eq!(cursor_from_text(""), "Invalid timestamp");
}

#[test]
fn count_bounds_are_one_to_four_hundred() {
    assert!(count_in_range(1));
    assert!(count_in_range(400));
    assert!(!count_in_range(0));
    assert!(!count_in_range(401));
    assert!(!count_in_range(-3));
}

#[test]
fn window_start_derivation_follows_the_interval() {
    let to: i64 = 864_000;
    assert_eq!(derive_from(to, "hour", 15), to - 15 * 3600);
    assert_eq!(derive_from(to, "day", 15), to - 15 * 86400);
    assert_eq!(derive_from(to, "week", 2), to - 2 * 604800);
    assert_eq!(derive_from(to, "month", 2), to - 2 * 30 * 86400);
    assert_eq!(derive_from(to, "quarter", 1), to - 90 * 86400);
    assert_eq!(derive_from(to, "year", 1), to - 365 * 86400);
}

#[test]
fn unknown_interval_text_derives_a_day_window() {
    // An unknown granularity is not an error: it falls back to a day's
    // width, empty text included.
    let to: i64 = 864_000;
    assert_eq!(derive_from(to, "", 15), to - 15 * 86400);
    assert_eq!(derive_from(to, "fortnight", 15), to - 15 * 86400);
    assert_eq!(derive_from(to, "DAY", 3), to - 3 * 86400);
}

#[test]
fn ingest_stops_on_repeated_or_future_end() {
    assert_eq!(ingest_decision("100", "100", 1000), IngestDecision::Stop);
    assert_eq!(ingest_decision("99", "100", 50), IngestDecision::Stop);
    assert_eq!(ingest_decision("99", "100", 100), IngestDecision::Stop);
    assert_eq!(ingest_decision("99", "100", 200), IngestDecision::Continue);
    assert_eq!(ingest_decision("99", "later", 200), IngestDecision::Malformed);
}

#[test]
fn empty_window_error_has_text() {
    assert_eq!(HistoryError::EmptyWindow.text(), "no samples in the requested window");
}

#[test]
fn swap_query_splices_the_partition_clause() {
    let q = getswapquery("DATE(start_time)");
    assert!(q.starts_with("WITH RankedRecords AS ("));
    assert_eq!(q.matches("DATE(start_time)").count(), 10);
    assert!(q.contains("ROW_NUMBER() OVER (PARTITION BY DATE(start_time) ORDER BY start_time) AS rn_first"));
    assert!(q.contains("LIMIT ?;"));
    let h = getswapquery("YEAR(start_time)");
    assert_eq!(h.matches("YEAR(start_time)").count(), 10);
}

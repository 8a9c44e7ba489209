//! The request-layer computations: validating the interval count,
//! deriving a window start from its end, and reading a pagination
//! cursor back. Defaulting absent query fields (interval to "day",
//! count to 15, the window end to the current time) is the caller's
//! wiring; the decisions live here.

use vstd::prelude::*;
use crate::calendar::MAX_TIMESTAMP;
use crate::numtext::all_digits;
use crate::numtext::dec_digits;
use crate::numtext::dec_val;
use crate::numtext::parse_u64_dec;
use crate::numtext::u128_to_dec_string;

verus! {

/// The depth-and-price query parameters as they arrive.
pub struct DepthAndPriceHistoryQuery {
    pub interval: Option<String>,
    pub count: Option<i64>,
    pub from: Option<i64>,
    pub to: Option<i64>,
}

/// The earnings query parameters as they arrive.
pub struct EarningsQuery {
    pub interval: Option<String>,
    pub count: Option<i64>,
    pub from: Option<i64>,
    pub to: Option<i64>,
}

/// The rune-pool query parameters as they arrive.
pub struct RUNEPoolHistoryQuery {
    pub interval: Option<String>,
    pub count: Option<i64>,
    pub from: Option<i64>,
    pub to: Option<i64>,
}

/// The swaps query parameters as they arrive.
pub struct SwapsQuery {
    pub interval: Option<String>,
    pub count: Option<i64>,
    pub from: Option<i64>,
    pub to: Option<i64>,
}

/// Whether a requested interval count is acceptable: between 1 and 400.
pub fn count_in_range(count: i64) -> (ok: bool)
    ensures
        ok == (1 <= count <= 400),
{
    1 <= count && count <= 400
}

/// The window start that `count` intervals of the named width before
/// `to` select. Unrecognised interval text is not an error: it falls
/// back to a day's width, like the bucketing side.
pub open spec fn spec_derived_from(to: int, interval: Seq<char>, count: int) -> int {
    if interval == "hour"@ {
        to - count * 3600
    } else if interval == "week"@ {
        to - count * 604800
    } else if interval == "month"@ {
        to - count * 2592000
    } else if interval == "quarter"@ {
        to - count * 7776000
    } else if interval == "year"@ {
        to - count * 31536000
    } else {
        to - count * 86400
    }
}

/// Derives the window start from its end, the interval name and the
/// interval count, as [`spec_derived_from`] says.
pub fn derive_from(to: i64, interval: &str, count: i64) -> (r: i64)
    requires
        0 <= to <= MAX_TIMESTAMP,
        1 <= count <= 400,
    ensures
        r as int == spec_derived_from(to as int, interval@, count as int),
{
    let owned = interval.to_owned();
    if owned == "hour".to_owned() {
        to - count * 3600
    } else if owned == "week".to_owned() {
        to - count * 604800
    } else if owned == "month".to_owned() {
        to - count * 2592000
    } else if owned == "quarter".to_owned() {
        to - count * 7776000
    } else if owned == "year".to_owned() {
        to - count * 31536000
    } else {
        to - count * 86400
    }
}

/// Reads a pagination cursor back: the epoch seconds it names, as
/// canonical decimal text, or the explicit invalid-cursor marker when
/// the text is not an instant. Callers treat the marker as "no further
/// pages determinable"; a malformed cursor never fails a response.
pub fn cursor_from_text(t: &str) -> (c: String)
    ensures
        t@.len() > 0 && all_digits(t@) && dec_val(t@) <= u64::MAX ==> c@ == dec_digits(
            dec_val(t@),
        ),
        !(t@.len() > 0 && all_digits(t@) && dec_val(t@) <= u64::MAX) ==> c@
            == "Invalid timestamp"@,
{
    match parse_u64_dec(t) {
        Some(v) => u128_to_dec_string(v as u128),
        None => "Invalid timestamp".to_owned(),
    }
}

} // verus!

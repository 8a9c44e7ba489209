//! The calendar granularities a window can be bucketed by.

use vstd::prelude::*;

verus! {

/// A bucketing granularity. Unrecognised granularity text falls back to
/// [`Granularity::Day`]; see [`Granularity::from_text`].
#[derive(Clone, Copy, PartialEq, Eq, Structural, Debug)]
pub enum Granularity {
    Hour,
    Day,
    Week,
    Month,
    Year,
}

/// The granularity that a piece of query text selects: the five recognised
/// names select themselves, anything else falls back to `Day`.
pub open spec fn granularity_of_text(t: Seq<char>) -> Granularity {
    if t == "hour"@ {
        Granularity::Hour
    } else if t == "week"@ {
        Granularity::Week
    } else if t == "month"@ {
        Granularity::Month
    } else if t == "year"@ {
        Granularity::Year
    } else {
        Granularity::Day
    }
}

/// Parses granularity text, falling back to `Day` for unrecognised input
/// (including "day" itself).
pub fn granularity_from_text(t: &str) -> (g: Granularity)
    ensures
        g == granularity_of_text(t@),
{
    let owned = t.to_owned();
    if owned == "hour".to_owned() {
        Granularity::Hour
    } else if owned == "week".to_owned() {
        Granularity::Week
    } else if owned == "month".to_owned() {
        Granularity::Month
    } else if owned == "year".to_owned() {
        Granularity::Year
    } else {
        Granularity::Day
    }
}

} // verus!

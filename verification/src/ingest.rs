//! The ingestion loop's continuation rule. The loop itself — fetch a
//! page, upsert its rows, follow the cursor — is outside work; what it
//! decides after each page is pure and lives here: keep paging until
//! the upstream repeats an end instant, reports one at or beyond the
//! current time, or hands back an end instant that is not a number.

use vstd::prelude::*;
use vstd::string::StringExecFns;
use crate::numtext::all_digits;
use crate::numtext::dec_val;
use crate::numtext::parse_u64_dec;

verus! {

/// What the ingestion loop does after one fetched page.
#[derive(Clone, Copy, PartialEq, Eq, Structural, Debug)]
pub enum IngestDecision {
    /// Fetch the next page, starting from the reported end instant.
    Continue,
    /// The window is caught up: stop cleanly.
    Stop,
    /// The reported end instant is unreadable: stop and report it.
    Malformed,
}

/// The continuation rule on the previous page's end text, the current
/// page's end text, and the current time.
pub open spec fn spec_ingest_decision(prev: Seq<char>, cur: Seq<char>, now: int) -> IngestDecision {
    if cur == prev {
        IngestDecision::Stop
    } else if !(cur.len() > 0 && all_digits(cur) && dec_val(cur) <= u64::MAX) {
        IngestDecision::Malformed
    } else if dec_val(cur) >= now {
        IngestDecision::Stop
    } else {
        IngestDecision::Continue
    }
}

/// Decides whether the ingestion loop fetches another page.
pub fn ingest_decision(previous_end: &str, meta_end: &str, now: u64) -> (d: IngestDecision)
    ensures
        d == spec_ingest_decision(previous_end@, meta_end@, now as int),
{
    if meta_end.to_owned() == previous_end.to_owned() {
        return IngestDecision::Stop;
    }
    match parse_u64_dec(meta_end) {
        None => IngestDecision::Malformed,
        Some(v) => {
            if v >= now {
                IngestDecision::Stop
            } else {
                IngestDecision::Continue
            }
        },
    }
}

} // verus!

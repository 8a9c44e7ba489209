//! The aggregation core's failure values. It never partially succeeds:
//! a query yields the full result or one of these.

use vstd::prelude::*;

verus! {

/// Why an aggregation query returned no result.
#[derive(Clone, Copy, PartialEq, Eq, Structural, Debug)]
pub enum HistoryError {
    /// The queried range yielded zero raw samples. Distinct from an
    /// all-zero result: callers surface it as "not found".
    EmptyWindow,
}

impl HistoryError {
    /// A short description for logs and error payloads.
    pub fn text(&self) -> (t: &'static str)
        ensures
            t@ == "no samples in the requested window"@,
    {
        "no samples in the requested window"
    }
}

} // verus!

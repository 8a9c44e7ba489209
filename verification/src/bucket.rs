//! The bucket partitioner: maps a timestamp to the key of the calendar
//! bucket that contains it, for a requested granularity.
//!
//! A sample lying exactly on a bucket boundary belongs to the bucket that
//! contains its own start instant, so buckets never overlap: every
//! timestamp matches exactly one key (`lemma_key_exists`,
//! `lemma_key_unique`), and keys are ordered as the timestamps are
//! (`lemma_key_ordered`).

use vstd::prelude::*;
use vstd::arithmetic::div_mod::lemma_div_is_ordered;
use vstd::arithmetic::div_mod::lemma_fundamental_div_mod;
use vstd::arithmetic::div_mod::lemma_fundamental_div_mod_converse_div;
use vstd::arithmetic::div_mod::lemma_fundamental_div_mod_converse_mod;
use crate::calendar::MAX_TIMESTAMP;
use crate::calendar::civil_of_day;
use crate::calendar::days_in_year;
use crate::calendar::lemma_days_in_year_value;
use crate::calendar::lemma_month_key_start_monotone;
use crate::calendar::lemma_month_key_start_succ;
use crate::calendar::lemma_year_start_lower;
use crate::calendar::lemma_year_start_monotone;
use crate::calendar::month_key_start;
use crate::calendar::month_start_days;
use crate::calendar::year_start_days;
use crate::granularity::Granularity;

verus! {

/// Whether `k` is the key of the bucket containing timestamp `ts` under
/// granularity `g`.
pub open spec fn key_matches(ts: int, g: Granularity, k: int) -> bool {
    match g {
        Granularity::Hour => k == ts / 3600,
        Granularity::Day => k == ts / 86400,
        Granularity::Week => k == (ts / 86400 + 3) / 7,
        Granularity::Month => {
            &&& k >= 1970 * 12
            &&& month_key_start(k) <= ts / 86400 < month_key_start(k + 1)
        },
        Granularity::Year => {
            &&& k >= 1970
            &&& year_start_days(k) <= ts / 86400 < year_start_days(k + 1)
        },
    }
}

proof fn lemma_month_key_exists(days: int)
    requires
        0 <= days,
    ensures
        exists|k: int|
            #![trigger month_key_start(k)]
            k >= 1970 * 12 && month_key_start(k) <= days < month_key_start(k + 1),
    decreases days,
{
    if days == 0 {
        let k0: int = 23640;
        lemma_fundamental_div_mod_converse_div(k0, 12, 1970, 0);
        lemma_fundamental_div_mod_converse_mod(k0, 12, 1970, 0);
        assert(month_key_start(k0) == 0);
        lemma_month_key_start_succ(k0);
        assert(month_key_start(k0) <= days < month_key_start(k0 + 1));
    } else {
        lemma_month_key_exists(days - 1);
        let k = choose|k: int|
            #![trigger month_key_start(k)]
            k >= 1970 * 12 && month_key_start(k) <= days - 1 < month_key_start(k + 1);
        if days < month_key_start(k + 1) {
            assert(month_key_start(k) <= days < month_key_start(k + 1));
        } else {
            lemma_month_key_start_succ(k + 1);
            assert(month_key_start(k + 1) <= days < month_key_start(k + 2));
        }
    }
}

proof fn lemma_year_key_exists(days: int)
    requires
        0 <= days,
    ensures
        exists|k: int|
            #![trigger year_start_days(k)]
            k >= 1970 && year_start_days(k) <= days < year_start_days(k + 1),
    decreases days,
{
    if days == 0 {
        assert(year_start_days(1970) == 0);
        assert(year_start_days(1971) == days_in_year(1970));
        lemma_days_in_year_value(1970);
        assert(year_start_days(1970) <= days < year_start_days(1971));
    } else {
        lemma_year_key_exists(days - 1);
        let k = choose|k: int|
            #![trigger year_start_days(k)]
            k >= 1970 && year_start_days(k) <= days - 1 < year_start_days(k + 1);
        if days < year_start_days(k + 1) {
            assert(year_start_days(k) <= days < year_start_days(k + 1));
        } else {
            assert(year_start_days(k + 2) == year_start_days(k + 1) + days_in_year(k + 1));
            lemma_days_in_year_value(k + 1);
            assert(year_start_days(k + 1) <= days < year_start_days(k + 2));
        }
    }
}

/// Every nonnegative timestamp lies in some bucket.
pub proof fn lemma_key_exists(ts: int, g: Granularity)
    requires
        0 <= ts,
    ensures
        exists|k: int| #[trigger] key_matches(ts, g, k),
{
    let days = ts / 86400;
    vstd::arithmetic::div_mod::lemma_div_pos_is_pos(ts, 86400);
    match g {
        Granularity::Hour => {
            assert(key_matches(ts, g, ts / 3600));
        },
        Granularity::Day => {
            assert(key_matches(ts, g, ts / 86400));
        },
        Granularity::Week => {
            assert(key_matches(ts, g, (ts / 86400 + 3) / 7));
        },
        Granularity::Month => {
            lemma_month_key_exists(days);
            let k = choose|k: int|
                #![trigger month_key_start(k)]
                k >= 1970 * 12 && month_key_start(k) <= days < month_key_start(k + 1);
            assert(key_matches(ts, g, k));
        },
        Granularity::Year => {
            lemma_year_key_exists(days);
            let k = choose|k: int|
                #![trigger year_start_days(k)]
                k >= 1970 && year_start_days(k) <= days < year_start_days(k + 1);
            assert(key_matches(ts, g, k));
        },
    }
}

/// A timestamp lies in at most one bucket.
pub proof fn lemma_key_unique(ts: int, g: Granularity, k1: int, k2: int)
    requires
        key_matches(ts, g, k1),
        key_matches(ts, g, k2),
    ensures
        k1 == k2,
{
    match g {
        Granularity::Month => {
            if k1 < k2 {
                lemma_month_key_start_monotone(k1 + 1, k2);
            } else if k2 < k1 {
                lemma_month_key_start_monotone(k2 + 1, k1);
            }
        },
        Granularity::Year => {
            if k1 < k2 {
                lemma_year_start_monotone(k1 + 1, k2);
            } else if k2 < k1 {
                lemma_year_start_monotone(k2 + 1, k1);
            }
        },
        _ => {},
    }
}

/// Later timestamps lie in buckets with keys at least as large.
pub proof fn lemma_key_ordered(ts1: int, ts2: int, g: Granularity, k1: int, k2: int)
    requires
        0 <= ts1 <= ts2,
        key_matches(ts1, g, k1),
        key_matches(ts2, g, k2),
    ensures
        k1 <= k2,
{
    lemma_div_is_ordered(ts1, ts2, 86400);
    lemma_div_is_ordered(ts1, ts2, 3600);
    lemma_div_is_ordered(ts1 / 86400 + 3, ts2 / 86400 + 3, 7);
    match g {
        Granularity::Month => {
            if k1 > k2 {
                lemma_month_key_start_monotone(k2 + 1, k1);
            }
        },
        Granularity::Year => {
            if k1 > k2 {
                lemma_year_start_monotone(k2 + 1, k1);
            }
        },
        _ => {},
    }
}

/// The key of the bucket containing `ts`: well defined for nonnegative
/// timestamps by `lemma_key_exists` and `lemma_key_unique`.
pub open spec fn the_key(ts: int, g: Granularity) -> int {
    choose|k: int| #[trigger] key_matches(ts, g, k)
}

pub proof fn lemma_the_key(ts: int, g: Granularity)
    requires
        0 <= ts,
    ensures
        key_matches(ts, g, the_key(ts, g)),
{
    lemma_key_exists(ts, g);
}

/// Timestamps in the same bucket, under `g`.
pub open spec fn same_bucket(ts1: int, ts2: int, g: Granularity) -> bool {
    the_key(ts1, g) == the_key(ts2, g)
}

pub proof fn lemma_the_key_ordered(ts1: int, ts2: int, g: Granularity)
    requires
        0 <= ts1 <= ts2,
    ensures
        the_key(ts1, g) <= the_key(ts2, g),
{
    lemma_the_key(ts1, g);
    lemma_the_key(ts2, g);
    lemma_key_ordered(ts1, ts2, g, the_key(ts1, g), the_key(ts2, g));
}

/// Computes the bucket key of `ts` under `g`.
pub fn bucket_key(ts: u64, g: Granularity) -> (k: u64)
    requires
        ts <= MAX_TIMESTAMP,
    ensures
        key_matches(ts as int, g, k as int),
        k == the_key(ts as int, g),
{
    let k: u64 = match g {
        Granularity::Hour => ts / 3600,
        Granularity::Day => ts / 86400,
        Granularity::Week => (ts / 86400 + 3) / 7,
        Granularity::Month => {
            let days = ts / 86400;
            proof {
                lemma_div_is_ordered(ts as int, MAX_TIMESTAMP as int, 86400);
            }
            let (y, m) = civil_of_day(days);
            proof {
                lemma_year_start_lower(y as int);
            }
            let k = y * 12 + (m - 1);
            proof {
                lemma_fundamental_div_mod_converse_div(k as int, 12, y as int, m as int - 1);
                lemma_fundamental_div_mod_converse_mod(k as int, 12, y as int, m as int - 1);
                lemma_month_key_start_succ(k as int);
                assert(month_key_start(k as int) == month_start_days(y as int, m as int));
            }
            k
        },
        Granularity::Year => {
            let days = ts / 86400;
            proof {
                lemma_div_is_ordered(ts as int, MAX_TIMESTAMP as int, 86400);
            }
            let (y, m) = civil_of_day(days);
            proof {
                assert(year_start_days(y as int + 1) == year_start_days(y as int) + days_in_year(
                    y as int,
                ));
            }
            y
        },
    };
    proof {
        lemma_the_key(ts as int, g);
        lemma_key_unique(ts as int, g, k as int, the_key(ts as int, g));
    }
    k
}

} // verus!

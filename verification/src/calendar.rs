//! Civil (proleptic Gregorian) calendar arithmetic on days counted from
//! 1970-01-01. Everything here is pure integer arithmetic; timestamps are
//! UTC epoch seconds.

use vstd::prelude::*;
use vstd::arithmetic::div_mod::lemma_fundamental_div_mod;
use vstd::arithmetic::div_mod::lemma_fundamental_div_mod_converse_div;
use vstd::arithmetic::div_mod::lemma_fundamental_div_mod_converse_mod;

verus! {

/// The last instant the library buckets: 9999-12-31T23:59:59 UTC.
pub const MAX_TIMESTAMP: u64 = 253_402_300_799;

pub const SECS_PER_HOUR: u64 = 3_600;

pub const SECS_PER_DAY: u64 = 86_400;

pub open spec fn is_leap_year(y: int) -> bool {
    y % 4 == 0 && (y % 100 != 0 || y % 400 == 0)
}

/// Length of month `m` (1-based) of year `y`, for `1 <= m <= 12`.
pub open spec fn days_in_month(y: int, m: int) -> int {
    if m == 2 {
        if is_leap_year(y) {
            29
        } else {
            28
        }
    } else if m == 4 || m == 6 || m == 9 || m == 11 {
        30
    } else {
        31
    }
}

/// Days from 1 January of year `y` to the first day of month `m` of `y`.
pub open spec fn months_acc(y: int, m: int) -> int
    decreases m,
{
    if m <= 1 {
        0
    } else {
        months_acc(y, m - 1) + days_in_month(y, m - 1)
    }
}

pub open spec fn days_in_year(y: int) -> int {
    months_acc(y, 13)
}

/// Days from 1970-01-01 to the first day of year `y`, for `y >= 1970`.
pub open spec fn year_start_days(y: int) -> int
    decreases y - 1970,
{
    if y <= 1970 {
        0
    } else {
        year_start_days(y - 1) + days_in_year(y - 1)
    }
}

/// Days from 1970-01-01 to the first day of month `m` of year `y`.
pub open spec fn month_start_days(y: int, m: int) -> int {
    year_start_days(y) + months_acc(y, m)
}

pub proof fn lemma_days_in_year_value(y: int)
    ensures
        days_in_year(y) == if is_leap_year(y) {
            366int
        } else {
            365int
        },
{
    reveal_with_fuel(months_acc, 14);
}

pub proof fn lemma_months_acc_monotone(y: int, m1: int, m2: int)
    requires
        m1 <= m2,
    ensures
        months_acc(y, m1) <= months_acc(y, m2),
    decreases m2 - m1,
{
    if m1 < m2 {
        lemma_months_acc_monotone(y, m1, m2 - 1);
    }
}

pub proof fn lemma_year_start_monotone(y1: int, y2: int)
    requires
        y1 <= y2,
    ensures
        year_start_days(y1) <= year_start_days(y2),
    decreases y2 - y1,
{
    if y1 < y2 {
        lemma_year_start_monotone(y1, y2 - 1);
        lemma_days_in_year_value(y2 - 1);
    }
}

pub proof fn lemma_year_start_lower(y: int)
    requires
        1970 <= y,
    ensures
        year_start_days(y) >= 365 * (y - 1970),
    decreases y - 1970,
{
    if y > 1970 {
        lemma_year_start_lower(y - 1);
        lemma_days_in_year_value(y - 1);
    }
}

/// A month key encodes year `k / 12` and month `k % 12 + 1` in one integer,
/// so that consecutive keys are consecutive calendar months.
pub open spec fn month_key_start(k: int) -> int {
    month_start_days(k / 12, k % 12 + 1)
}

pub proof fn lemma_month_key_start_succ(k: int)
    requires
        k >= 1970 * 12,
    ensures
        month_key_start(k + 1) == month_key_start(k) + days_in_month(k / 12, k % 12 + 1),
{
    let y = k / 12;
    let r = k % 12;
    lemma_fundamental_div_mod(k, 12);
    assert(k == 12 * y + r);
    if r < 11 {
        lemma_fundamental_div_mod_converse_div(k + 1, 12, y, r + 1);
        lemma_fundamental_div_mod_converse_mod(k + 1, 12, y, r + 1);
        assert(months_acc(y, r + 3) == months_acc(y, r + 2) + days_in_month(y, r + 2));
    } else {
        lemma_fundamental_div_mod_converse_div(k + 1, 12, y + 1, 0);
        lemma_fundamental_div_mod_converse_mod(k + 1, 12, y + 1, 0);
        assert(year_start_days(y + 1) == year_start_days(y) + days_in_year(y));
        assert(months_acc(y, 13) == months_acc(y, 12) + days_in_month(y, 12));
    }
}

pub proof fn lemma_month_key_start_monotone(k1: int, k2: int)
    requires
        1970 * 12 <= k1 <= k2,
    ensures
        month_key_start(k1) <= month_key_start(k2),
    decreases k2 - k1,
{
    if k1 < k2 {
        lemma_month_key_start_monotone(k1, k2 - 1);
        lemma_month_key_start_succ(k2 - 1);
    }
}

pub fn leap_year(y: u64) -> (b: bool)
    ensures
        b == is_leap_year(y as int),
{
    y % 4 == 0 && (y % 100 != 0 || y % 400 == 0)
}

pub fn month_len(y: u64, m: u64) -> (d: u64)
    requires
        1 <= m <= 12,
    ensures
        d == days_in_month(y as int, m as int),
{
    if m == 2 {
        if leap_year(y) {
            29
        } else {
            28
        }
    } else if m == 4 || m == 6 || m == 9 || m == 11 {
        30
    } else {
        31
    }
}

pub fn year_len(y: u64) -> (d: u64)
    ensures
        d == days_in_year(y as int),
{
    proof {
        lemma_days_in_year_value(y as int);
    }
    if leap_year(y) {
        366
    } else {
        365
    }
}

/// The calendar year and month containing epoch day `days`.
pub fn civil_of_day(days: u64) -> (c: (u64, u64))
    requires
        days <= MAX_TIMESTAMP / 86_400,
    ensures
        1970 <= c.0,
        1 <= c.1 <= 12,
        month_start_days(c.0 as int, c.1 as int) <= days,
        days < month_start_days(c.0 as int, c.1 as int) + days_in_month(c.0 as int, c.1 as int),
        year_start_days(c.0 as int) <= days,
        days < year_start_days(c.0 as int) + days_in_year(c.0 as int),
{
    let mut y: u64 = 1970;
    let mut rem: u64 = days;
    loop
        invariant_except_break
            1970 <= y <= 1970 + days,
            rem <= days,
            year_start_days(y as int) + rem == days,
        invariant
            days <= MAX_TIMESTAMP / 86_400,
        ensures
            1970 <= y <= 1970 + days,
            year_start_days(y as int) + rem == days,
            rem < days_in_year(y as int),
        decreases rem,
    {
        let yl = year_len(y);
        proof {
            lemma_days_in_year_value(y as int);
        }
        if rem < yl {
            break;
        }
        proof {
            lemma_year_start_lower(y as int + 1);
        }
        rem = rem - yl;
        y = y + 1;
    }
    let ghost day_of_year: u64 = rem;
    let mut m: u64 = 1;
    loop
        invariant_except_break
            1 <= m <= 12,
            year_start_days(y as int) + months_acc(y as int, m as int) + rem == days,
            months_acc(y as int, m as int) + rem == day_of_year,
            day_of_year < days_in_year(y as int),
        ensures
            1 <= m <= 12,
            year_start_days(y as int) + months_acc(y as int, m as int) + rem == days,
            rem < days_in_month(y as int, m as int),
        decreases rem,
    {
        let ml = month_len(y, m);
        if rem < ml {
            break;
        }
        proof {
            assert(months_acc(y as int, 13) == months_acc(y as int, 12) + days_in_month(
                y as int,
                12,
            ));
            lemma_months_acc_monotone(y as int, m as int + 1, 13);
        }
        rem = rem - ml;
        m = m + 1;
    }
    proof {
        lemma_months_acc_monotone(y as int, 1, m as int);
        lemma_months_acc_monotone(y as int, m as int + 1, 13);
    }
    (y, m)
}

} // verus!

//! Calendar arithmetic on the proleptic Gregorian calendar.
//!
//! Days are counted from 1970-01-01 (day 0), negative before it.
use vstd::prelude::*;
use vstd::arithmetic::div_mod::{lemma_fundamental_div_mod, lemma_fundamental_div_mod_converse};

verus! {

/// Gregorian leap year: divisible by 4, except centuries not divisible by 400.
pub open spec fn is_leap_year(y: int) -> bool {
    (y % 4 == 0 && y % 100 != 0) || y % 400 == 0
}

/// Number of days of month `m` (1 = January) of year `y`.
pub open spec fn days_in_month(y: int, m: int) -> int {
    if m == 2 {
        if is_leap_year(y) {
            29
        } else {
            28
        }
    } else if m == 4 || m == 6 || m == 9 || m == 11 {
        30
    } else {
        31
    }
}

/// Number of days in year `y` before the first day of month `m`.
pub open spec fn days_before_month(y: int, m: int) -> int
    decreases m,
{
    if m <= 1 {
        0
    } else {
        days_before_month(y, m - 1) + days_in_month(y, m - 1)
    }
}

/// Number of leap years before year `y`, counted from an arbitrary fixed
/// origin: only differences of this count matter.
pub open spec fn leap_years_before(y: int) -> int {
    (y - 1) / 4 - (y - 1) / 100 + (y - 1) / 400
}

/// Number of days from 1970-01-01 to the first day of year `y`.
pub open spec fn days_before_year(y: int) -> int {
    365 * (y - 1970) + leap_years_before(y) - leap_years_before(1970)
}

/// Number of days from 1970-01-01 to the date `y-m-d`.
pub open spec fn days_from_civil(y: int, m: int, d: int) -> int {
    days_before_year(y) + days_before_month(y, m) + d - 1
}

/// `y-m-d` is a date of the calendar.
pub open spec fn is_valid_date(y: int, m: int, d: int) -> bool {
    1 <= m <= 12 && 1 <= d <= days_in_month(y, m)
}

/// Shifting a dividend by `k` divisors shifts the quotient by `k` and
/// leaves the remainder.
proof fn lemma_div_shift(k: int, x: int, d: int)
    requires
        d > 0,
    ensures
        (k * d + x) / d == k + x / d,
        (k * d + x) % d == x % d,
{
    lemma_fundamental_div_mod(x, d);
    assert(k * d + x == (k + x / d) * d + x % d) by (nonlinear_arith)
        requires
            x == d * (x / d) + (x % d),
    ;
    lemma_fundamental_div_mod_converse(k * d + x, d, k + x / d, x % d);
}

/// `(y - 1) / d` and `y / d` differ by one exactly when `d` divides `y`.
proof fn lemma_div_step(y: int, d: int)
    requires
        d > 0,
    ensures
        y / d - (y - 1) / d == (if y % d == 0 {
            1int
        } else {
            0int
        }),
{
    lemma_fundamental_div_mod(y, d);
    let q = y / d;
    let r = y % d;
    assert(0 <= r < d) by {
        vstd::arithmetic::div_mod::lemma_mod_bound(y, d);
    }
    if r == 0 {
        assert(y - 1 == (q - 1) * d + (d - 1)) by (nonlinear_arith)
            requires
                y == d * q + r,
                r == 0,
        ;
        lemma_fundamental_div_mod_converse(y - 1, d, q - 1, d - 1);
    } else {
        assert(y - 1 == q * d + (r - 1)) by (nonlinear_arith)
            requires
                y == d * q + r,
        ;
        lemma_fundamental_div_mod_converse(y - 1, d, q, r - 1);
    }
}

/// Year `y` adds one to the leap-year count exactly when it is a leap year.
pub proof fn lemma_leap_step(y: int)
    ensures
        leap_years_before(y + 1) == leap_years_before(y) + (if is_leap_year(y) {
            1int
        } else {
            0int
        }),
{
    lemma_div_step(y, 4);
    lemma_div_step(y, 100);
    lemma_div_step(y, 400);
    assert(y % 400 == 0 ==> y % 100 == 0 && y % 4 == 0) by {
        lemma_fundamental_div_mod(y, 400);
        lemma_div_shift(4 * (y / 400), 0, 100);
        lemma_div_shift(100 * (y / 400), 0, 4);
    }
    assert(y % 100 == 0 ==> y % 4 == 0) by {
        lemma_fundamental_div_mod(y, 100);
        lemma_div_shift(25 * (y / 100), 0, 4);
    }
}

/// A year has 365 days, one more in a leap year.
pub proof fn lemma_year_length(y: int)
    ensures
        days_before_year(y + 1) == days_before_year(y) + 365 + (if is_leap_year(y) {
            1int
        } else {
            0int
        }),
{
    lemma_leap_step(y);
}

/// The calendar repeats every 400 years, which hold 97 leap years.
proof fn lemma_era_shift(e: int, x: int)
    ensures
        leap_years_before(400 * e + x) == 97 * e + leap_years_before(x),
        is_leap_year(400 * e + x) == is_leap_year(x),
{
    lemma_div_shift(100 * e, x - 1, 4);
    lemma_div_shift(4 * e, x - 1, 100);
    lemma_div_shift(e, x - 1, 400);
    lemma_div_shift(100 * e, x, 4);
    lemma_div_shift(4 * e, x, 100);
    lemma_div_shift(e, x, 400);
}

/// Months before `m`, as a table.
proof fn lemma_days_before_month_table(y: int, m: int)
    requires
        1 <= m <= 12,
    ensures
        days_before_month(y, m) == (if m == 1 {
            0int
        } else if m == 2 {
            31int
        } else {
            59 + (if is_leap_year(y) {
                1int
            } else {
                0int
            }) + (153 * (m - 3) + 2) / 5
        }),
{
    reveal_with_fuel(days_before_month, 13);
}

/// The split of a day of a 400-year era into year of era and day of year,
/// for eras starting on 1 March.
proof fn lemma_year_of_era(doe: u32)
    requires
        doe <= 146096,
    ensures
        ({
            let yoe = (doe - doe / 1460 + doe / 36524 - doe / 146096) / 365;
            let st = 365 * yoe + yoe / 4 - yoe / 100;
            &&& yoe <= 399
            &&& st <= doe
            &&& (doe - st <= 364 || (doe - st == 365 && (yoe + 1) % 4 == 0 && ((yoe + 1) % 100
                != 0 || (yoe + 1) % 400 == 0)))
        }),
{
    assert(doe <= 146096 ==> ({
        let yoe = (doe - doe / 1460 + doe / 36524 - doe / 146096) / 365;
        let st = 365 * yoe + yoe / 4 - yoe / 100;
        &&& yoe <= 399
        &&& st <= doe
        &&& (doe - st <= 364 || (doe - st == 365 && (yoe + 1) % 4 == 0 && ((yoe + 1) % 100 != 0
            || (yoe + 1) % 400 == 0)))
    })) by (bit_vector);
}

/// The split of a day of a March-based year into month and day.
proof fn lemma_month_of_year(doy: u32)
    requires
        doy <= 365,
    ensures
        ({
            let mp = (5 * doy + 2) / 153;
            let mb = (153 * mp + 2) / 5;
            &&& mp <= 11
            &&& mb <= doy
            &&& doy - mb <= 30
            &&& (mp == 1 || mp == 3 || mp == 6 || mp == 8 ==> doy - mb <= 29)
            &&& (mp == 11 ==> doy - mb <= 28 || doy == 365)
        }),
{
    assert(doy <= 365 ==> ({
        let mp = (5 * doy + 2) / 153;
        let mb = (153 * mp + 2) / 5;
        &&& mp <= 11
        &&& mb <= doy
        &&& doy - mb <= 30
        &&& (mp == 1 || mp == 3 || mp == 6 || mp == 8 ==> doy - mb <= 29)
        &&& (mp == 11 ==> doy - mb <= 28 || doy == 365)
    })) by (bit_vector);
}

} // verus!

verus! {

/// Day count of 1 March of year `400 * era + yoe`.
proof fn lemma_march_first(era: int, yoe: int)
    requires
        0 <= yoe <= 399,
    ensures
        days_before_year(400 * era + yoe) + 59 + (if is_leap_year(400 * era + yoe) {
            1int
        } else {
            0int
        }) == era * 146097 + 365 * yoe + yoe / 4 - yoe / 100 - 719468,
{
    lemma_era_shift(era, yoe);
    lemma_leap_step(yoe);
    assert(yoe / 400 == 0);
    assert(leap_years_before(1970) == 477);
}

/// Hinnant's split of a day count into date parts gives a valid date
/// that lies that many days after 1970-01-01.
proof fn lemma_civil_from_parts(
    z: int,
    era: int,
    doe: int,
    yoe: int,
    doy: int,
    mp: int,
    d: int,
    m: int,
    year: int,
)
    requires
        z + 719468 == era * 146097 + doe,
        0 <= doe <= 146096,
        yoe == (doe - doe / 1460 + doe / 36524 - doe / 146096) / 365,
        doy == doe - (365 * yoe + yoe / 4 - yoe / 100),
        mp == (5 * doy + 2) / 153,
        d == doy - (153 * mp + 2) / 5 + 1,
        m == (if mp < 10 {
            mp + 3
        } else {
            mp - 9
        }),
        year == (if m <= 2 {
            yoe + era * 400 + 1
        } else {
            yoe + era * 400
        }),
    ensures
        is_valid_date(year, m, d),
        days_from_civil(year, m, d) == z,
{
    lemma_year_of_era(doe as u32);
    assert(0 <= yoe <= 399);
    assert(0 <= doy <= 365);
    lemma_month_of_year(doy as u32);
    let y = 400 * era + yoe;
    lemma_march_first(era, yoe);
    lemma_era_shift(era, yoe + 1);
    lemma_year_length(y);
    lemma_days_before_month_table(year, m);
    if m > 2 {
        assert((153 * (m - 3) + 2) / 5 == (153 * mp + 2) / 5);
    } else {
        assert(y + 1 == 400 * era + (yoe + 1));
    }
}

/// The date that lies `z` days after 1970-01-01, as (year, month, day)
/// (Howard Hinnant's `civil_from_days`).
pub fn civil_from_days(z: i64) -> (r: (i64, u32, u32))
    requires
        z <= i64::MAX - 719468,
    ensures
        is_valid_date(r.0 as int, r.1 as int, r.2 as int),
        days_from_civil(r.0 as int, r.1 as int, r.2 as int) == z,
{
    // Days since 0000-03-01, split into 400-year eras.
    let z2: i64 = z + 719468;
    let era: i64 = if z2 >= 0 {
        z2 / 146097
    } else {
        -((146096 - z2) / 146097)
    };
    proof {
        if z2 >= 0 {
            lemma_fundamental_div_mod(z2 as int, 146097);
        } else {
            let a = 146096 - z2;
            lemma_fundamental_div_mod(a as int, 146097);
            vstd::arithmetic::div_mod::lemma_mod_bound(a as int, 146097);
        }
    }
    let doe: i64 = z2 - era * 146097;
    assert(0 <= doe <= 146096);
    let yoe: i64 = (doe - doe / 1460 + doe / 36524 - doe / 146096) / 365;
    let st: i64 = 365 * yoe + yoe / 4 - yoe / 100;
    proof {
        lemma_year_of_era(doe as u32);
    }
    let y: i64 = yoe + era * 400;
    let doy: i64 = doe - st;
    let mp: i64 = (5 * doy + 2) / 153;
    let mb: i64 = (153 * mp + 2) / 5;
    proof {
        lemma_month_of_year(doy as u32);
    }
    let d: i64 = doy - mb + 1;
    let m: i64 = if mp < 10 {
        mp + 3
    } else {
        mp - 9
    };
    let year: i64 = if m <= 2 {
        y + 1
    } else {
        y
    };
    proof {
        lemma_civil_from_parts(
            z as int,
            era as int,
            doe as int,
            yoe as int,
            doy as int,
            mp as int,
            d as int,
            m as int,
            year as int,
        );
    }
    (year, m as u32, d as u32)
}

} // verus!

verus! {

/// Years only move forward: a later year starts at least 365 days later
/// per year in between.
proof fn lemma_days_before_year_grows(y1: int, y2: int)
    requires
        y1 <= y2,
    ensures
        days_before_year(y2) - days_before_year(y1) >= 365 * (y2 - y1),
    decreases y2 - y1,
{
    if y1 < y2 {
        lemma_days_before_year_grows(y1, y2 - 1);
        lemma_year_length(y2 - 1);
    }
}

/// A valid date lies within its year.
proof fn lemma_date_within_year(y: int, m: int, d: int)
    requires
        is_valid_date(y, m, d),
    ensures
        days_before_year(y) <= days_from_civil(y, m, d) < days_before_year(y + 1),
        days_before_month(y, m) <= days_from_civil(y, m, d) - days_before_year(y) < days_before_month(
            y,
            m,
        ) + days_in_month(y, m),
{
    lemma_days_before_month_table(y, m);
    lemma_year_length(y);
}

/// Law: distinct valid dates are distinct days, so the date of a day is
/// unique.
pub proof fn law_days_from_civil_injective(y1: int, m1: int, d1: int, y2: int, m2: int, d2: int)
    requires
        is_valid_date(y1, m1, d1),
        is_valid_date(y2, m2, d2),
        days_from_civil(y1, m1, d1) == days_from_civil(y2, m2, d2),
    ensures
        y1 == y2,
        m1 == m2,
        d1 == d2,
{
    lemma_date_within_year(y1, m1, d1);
    lemma_date_within_year(y2, m2, d2);
    if y1 < y2 {
        lemma_days_before_year_grows(y1 + 1, y2);
    } else if y2 < y1 {
        lemma_days_before_year_grows(y2 + 1, y1);
    }
    assert(y1 == y2);
    if m1 < m2 {
        assert(days_before_month(y1, m2) >= days_before_month(y1, m1) + days_in_month(y1, m1)) by {
            lemma_days_before_month_grows(y1, m1 + 1, m2);
        }
    } else if m2 < m1 {
        assert(days_before_month(y1, m1) >= days_before_month(y1, m2) + days_in_month(y1, m2)) by {
            lemma_days_before_month_grows(y1, m2 + 1, m1);
        }
    }
}

/// Later months of a year start later.
proof fn lemma_days_before_month_grows(y: int, m1: int, m2: int)
    requires
        1 <= m1 <= m2,
    ensures
        days_before_month(y, m1) <= days_before_month(y, m2),
    decreases m2 - m1,
{
    if m1 < m2 {
        lemma_days_before_month_grows(y, m1, m2 - 1);
    }
}

} // verus!

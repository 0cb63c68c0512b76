//! Calendar arithmetic on Unix times (seconds, UTC) and civil dates. The
//! clock is read by the caller and handed in.
use vstd::prelude::*;
use vstd::arithmetic::div_mod::lemma_fundamental_div_mod_converse;

verus! {

/// A day of the proleptic Gregorian calendar.
#[derive(Debug, Clone, Copy, PartialEq, Eq, Structural)]
pub struct CivilDate {
    pub year: i32,
    /// 1 to 12.
    pub month: u32,
    /// 1 to 31.
    pub day: u32,
}

/// Days from 0001-01-01 (day 1) to 1970-01-01.
pub const CE_DAYS_AT_EPOCH: i64 = 719163;

pub const SECS_PER_DAY: i64 = 86400;

/// The day, counted from 1970-01-01, that the Unix time `secs` falls on.
pub open spec fn epoch_day(secs: int) -> int {
    secs / 86400
}

/// The day of the week of an epoch day, Monday being 0.
pub open spec fn weekday_from_monday(day: int) -> int {
    (day + 3) % 7
}

/// The civil date of a day counted from 0001-01-01 (day 1).
pub uninterp spec fn civil_of_ce_day(n: i32) -> Option<CivilDate>;

/// The day, counted from 0001-01-01 (day 1), of a civil date.
pub uninterp spec fn ce_day_of(c: CivilDate) -> Option<i32>;

/// Relies on `chrono::NaiveDate::from_num_days_from_ce_opt` and its `Datelike`
/// fields; `None` outside chrono's range of years.
#[verifier::external_body]
fn civil_from_ce_day(n: i32) -> (r: Option<CivilDate>)
    ensures
        r == civil_of_ce_day(n),
{
    chrono::NaiveDate::from_num_days_from_ce_opt(n).map(|d| CivilDate {
        year: chrono::Datelike::year(&d),
        month: chrono::Datelike::month(&d),
        day: chrono::Datelike::day(&d),
    })
}

/// Relies on `chrono::NaiveDate::from_ymd_opt` and
/// `Datelike::num_days_from_ce`; `None` for a date that does not exist.
#[verifier::external_body]
fn ce_day_from_civil(c: CivilDate) -> (r: Option<i32>)
    ensures
        r == ce_day_of(c),
{
    chrono::NaiveDate::from_ymd_opt(c.year, c.month, c.day).map(|d| chrono::Datelike::num_days_from_ce(&d))
}

/// The Unix time of midnight at the start of the civil date `c`.
pub open spec fn midnight_of(c: CivilDate) -> Option<int> {
    match ce_day_of(c) {
        Some(n) => Some((n - 719163) * 86400),
        None => None,
    }
}

/// The civil date that the Unix time `secs` falls on.
pub open spec fn civil_at(secs: int) -> Option<CivilDate> {
    let n = epoch_day(secs) + 719163;
    if i32::MIN <= n <= i32::MAX {
        civil_of_ce_day(n as i32)
    } else {
        None
    }
}

/// `a / b` rounded down, for `b > 0`.
fn floor_div(a: i128, b: i128) -> (q: i128)
    requires
        b > 0,
        -0x1_0000_0000_0000_0000_0000 < a < 0x1_0000_0000_0000_0000_0000,
        b < 0x1_0000_0000,
    ensures
        q == a as int / b as int,
        q * b <= a < q * b + b,
{
    if a >= 0 {
        let q = a / b;
        proof {
            let r = a - q * b;
            assert(0 <= r < b) by (nonlinear_arith)
                requires
                    q as int == a as int / b as int,
                    a >= 0,
                    b > 0,
                    r == a - q * b,
            ;
            lemma_fundamental_div_mod_converse(a as int, b as int, q as int, r as int);
        }
        q
    } else {
        let m = (-a + b - 1) / b;
        let q = -m;
        proof {
            let r = a - q * b;
            assert(0 <= r < b) by (nonlinear_arith)
                requires
                    m as int == (-(a as int) + b as int - 1) / (b as int),
                    -a + b - 1 >= 0,
                    b > 0,
                    q == -m,
                    r == a - q * b,
            ;
            lemma_fundamental_div_mod_converse(a as int, b as int, q as int, r as int);
        }
        q
    }
}

/// Calendar helpers.
pub struct DateUtils;

impl DateUtils {
    /// Whole days from the day of `start` to the day of `end`.
    pub fn days_between(start: i64, end: i64) -> (r: i64)
        ensures
            r == epoch_day(end as int) - epoch_day(start as int),
    {
        let a = floor_div(start as i128, SECS_PER_DAY as i128);
        let b = floor_div(end as i128, SECS_PER_DAY as i128);
        (b - a) as i64
    }

    /// The age in whole years, on `today`, of someone born on `birth`: one
    /// less than the difference of the years while this year's birthday is
    /// still to come.
    pub fn calculate_age(birth: CivilDate, today: CivilDate) -> (r: i32)
        requires
            i32::MIN + 1 <= today.year - birth.year <= i32::MAX,
        ensures
            r == today.year - birth.year - (if today.month < birth.month || (today.month == birth.month
                && today.day < birth.day) {
                1int
            } else {
                0int
            }),
    {
        let age = today.year - birth.year;
        if today.month < birth.month || (today.month == birth.month && today.day < birth.day) {
            age - 1
        } else {
            age
        }
    }

    /// Midnight at the start of the Monday of the week of `now`.
    pub fn week_start(now: i64) -> (r: i64)
        requires
            now >= i64::MIN + 7 * 86400,
        ensures
            r == (epoch_day(now as int) - weekday_from_monday(epoch_day(now as int))) * 86400,
    {
        let day = floor_div(now as i128, SECS_PER_DAY as i128);
        let w = floor_div(day + 3, 7);
        let from_monday = day + 3 - w * 7;
        proof {
            lemma_fundamental_div_mod_converse((day + 3) as int, 7, w as int, from_monday as int);
        }
        ((day - from_monday) * SECS_PER_DAY as i128) as i64
    }

    /// Midnight at the start of the first day of the month of `now`.
    pub fn month_start(now: i64) -> (r: Option<i64>)
        ensures
            r == (match civil_at(now as int) {
                Some(c) => match midnight_of(CivilDate { year: c.year, month: c.month, day: 1 }) {
                    Some(t) => Some(t as i64),
                    None => None,
                },
                None => None,
            }),
    {
        match Self::civil_date(now) {
            Some(c) => Self::midnight(CivilDate { year: c.year, month: c.month, day: 1 }),
            None => None,
        }
    }

    /// Midnight at the start of the first of January of the year of `now`.
    pub fn year_start(now: i64) -> (r: Option<i64>)
        ensures
            r == (match civil_at(now as int) {
                Some(c) => match midnight_of(CivilDate { year: c.year, month: 1, day: 1 }) {
                    Some(t) => Some(t as i64),
                    None => None,
                },
                None => None,
            }),
    {
        match Self::civil_date(now) {
            Some(c) => Self::midnight(CivilDate { year: c.year, month: 1, day: 1 }),
            None => None,
        }
    }

    /// The civil date that the Unix time `now` falls on.
    pub fn civil_date(now: i64) -> (r: Option<CivilDate>)
        ensures
            r == civil_at(now as int),
    {
        let n = floor_div(now as i128, SECS_PER_DAY as i128) + CE_DAYS_AT_EPOCH as i128;
        if n < i32::MIN as i128 || n > i32::MAX as i128 {
            return None;
        }
        civil_from_ce_day(n as i32)
    }

    /// The Unix time of midnight at the start of `c`.
    pub fn midnight(c: CivilDate) -> (r: Option<i64>)
        ensures
            r == (match midnight_of(c) {
                Some(t) => Some(t as i64),
                None => None,
            }),
    {
        match ce_day_from_civil(c) {
            Some(n) => Some((n as i64 - CE_DAYS_AT_EPOCH) * SECS_PER_DAY),
            None => None,
        }
    }
}

} // verus!

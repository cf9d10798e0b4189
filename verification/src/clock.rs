//! The clock query: current wall-clock date and time, optionally shifted to a
//! fixed whole-hour UTC offset.
//!
//! The moment itself comes from the system clock; everything around it — the
//! offset range check and the calendar validity of the result — is verified.

use vstd::prelude::*;

verus! {

/// Whether `y` is a leap year of the proleptic Gregorian calendar.
pub open spec fn is_leap_year(y: int) -> bool {
    (y % 4 == 0 && y % 100 != 0) || y % 400 == 0
}

/// How many days month `m` of year `y` has.
pub open spec fn days_in_month(y: int, m: int) -> int {
    if m == 2 {
        if is_leap_year(y) {
            29
        } else {
            28
        }
    } else if m == 4 || m == 6 || m == 9 || m == 11 {
        30
    } else {
        31
    }
}

/// Whether the six components name a real calendar date and time of day.
pub open spec fn valid_datetime(y: int, m: int, d: int, h: int, mi: int, s: int) -> bool {
    1 <= m <= 12 && 1 <= d <= days_in_month(y, m) && 0 <= h <= 23 && 0 <= mi <= 59 && 0 <= s
        <= 59
}

/// A wall-clock date and time, known to be calendar-valid.
#[derive(Clone, Copy, Debug, PartialEq, Eq, Structural)]
pub struct Datetime {
    pub year: i32,
    pub month: u8,
    pub day: u8,
    pub hour: u8,
    pub minute: u8,
    pub second: u8,
}

impl Datetime {
    /// The components name a real calendar date and time of day.
    pub open spec fn wf(self) -> bool {
        valid_datetime(
            self.year as int,
            self.month as int,
            self.day as int,
            self.hour as int,
            self.minute as int,
            self.second as int,
        )
    }

    /// Builds a date-time from components, validating them against the real
    /// calendar, leap years included.
    pub fn from_ymd_hms(year: i32, month: u32, day: u32, hour: u32, minute: u32, second: u32) -> (r:
        Option<Datetime>)
        ensures
            r is Some <==> valid_datetime(
                year as int,
                month as int,
                day as int,
                hour as int,
                minute as int,
                second as int,
            ),
            r matches Some(d) ==> d == (Datetime {
                year,
                month: month as u8,
                day: day as u8,
                hour: hour as u8,
                minute: minute as u8,
                second: second as u8,
            }) && d.wf(),
    {
        if month < 1 || month > 12 {
            return None;
        }
        let limit = days_in_month_count(year, month as u8);
        if day < 1 || day > limit as u32 {
            return None;
        }
        if hour > 23 || minute > 59 || second > 59 {
            return None;
        }
        Some(
            Datetime {
                year,
                month: month as u8,
                day: day as u8,
                hour: hour as u8,
                minute: minute as u8,
                second: second as u8,
            },
        )
    }
}

/// Whether `year` is a leap year.
pub fn leap_year(year: i32) -> (r: bool)
    ensures
        r == is_leap_year(year as int),
{
    let wide: i64 = year as i64;
    let a: i64 = if wide < 0 {
        -wide
    } else {
        wide
    };
    let r = (a % 4 == 0 && a % 100 != 0) || a % 400 == 0;
    proof {
        lemma_mod_zero_symmetric(year as int, a as int, 4);
        lemma_mod_zero_symmetric(year as int, a as int, 100);
        lemma_mod_zero_symmetric(year as int, a as int, 400);
    }
    r
}

/// Divisibility is indifferent to sign.
proof fn lemma_mod_zero_symmetric(y: int, a: int, d: int)
    requires
        d > 0,
        a == y || a == -y,
    ensures
        (a % d == 0) == (y % d == 0),
{
    if a == -y {
        if y % d == 0 {
            lemma_neg_divisible(y, a, d);
        }
        if a % d == 0 {
            lemma_neg_divisible(a, y, d);
        }
    }
}

/// When `d` divides `y`, it also divides `-y`.
proof fn lemma_neg_divisible(y: int, a: int, d: int)
    requires
        d > 0,
        a == -y,
        y % d == 0,
    ensures
        a % d == 0,
{
    vstd::arithmetic::div_mod::lemma_fundamental_div_mod(y, d);
    assert(y == d * (y / d));
    assert(a == (-(y / d)) * d) by (nonlinear_arith)
        requires
            a == -y,
            y == d * (y / d),
    ;
    vstd::arithmetic::div_mod::lemma_mod_multiples_basic(-(y / d), d);
}

/// How many days the given month has.
pub fn days_in_month_count(year: i32, month: u8) -> (r: u8)
    requires
        1 <= month <= 12,
    ensures
        r as int == days_in_month(year as int, month as int),
{
    if month == 2 {
        if leap_year(year) {
            29
        } else {
            28
        }
    } else if month == 4 || month == 6 || month == 9 || month == 11 {
        30
    } else {
        31
    }
}

/// Relies on chrono's `Local::now` and the `Datelike`/`Timelike` accessors:
/// the current local wall clock as (year, month, day, hour, minute, second).
/// The moment depends on when the call happens; what is stated is only that
/// the accessors of a `NaiveDateTime` describe a real calendar date and time.
#[verifier::external_body]
fn local_now_parts() -> (r: (i32, u32, u32, u32, u32, u32))
    ensures
        valid_datetime(
            r.0 as int,
            r.1 as int,
            r.2 as int,
            r.3 as int,
            r.4 as int,
            r.5 as int,
        ),
{
    let now = chrono::Local::now().naive_local();
    (
        chrono::Datelike::year(&now),
        chrono::Datelike::month(&now),
        chrono::Datelike::day(&now),
        chrono::Timelike::hour(&now),
        chrono::Timelike::minute(&now),
        chrono::Timelike::second(&now),
    )
}

/// Relies on chrono's `FixedOffset::east_opt` (defined for every offset
/// strictly between plus and minus one day, which the precondition
/// guarantees) and `DateTime::with_timezone`: the current wall clock in the
/// given fixed offset, as components of a real calendar date and time.
#[verifier::external_body]
fn local_now_parts_at_offset(offset_seconds: i32) -> (r: (i32, u32, u32, u32, u32, u32))
    requires
        -86400 < offset_seconds < 86400,
    ensures
        valid_datetime(
            r.0 as int,
            r.1 as int,
            r.2 as int,
            r.3 as int,
            r.4 as int,
            r.5 as int,
        ),
{
    let zone = chrono::FixedOffset::east_opt(offset_seconds).unwrap();
    let now = chrono::Local::now().with_timezone(&zone).naive_local();
    (
        chrono::Datelike::year(&now),
        chrono::Datelike::month(&now),
        chrono::Datelike::day(&now),
        chrono::Timelike::hour(&now),
        chrono::Timelike::minute(&now),
        chrono::Timelike::second(&now),
    )
}

/// The current date and time: local wall-clock time when no offset is given,
/// otherwise UTC shifted by the requested whole hours.  An offset of a whole
/// day or more is not representable and yields `None`; any moment the clock
/// reports comes back as a calendar-valid date-time.
pub fn current_datetime(offset_hours: Option<i64>) -> (r: Option<Datetime>)
    ensures
        r is Some <==> (match offset_hours {
            Option::Some(h) => -24 < h < 24,
            Option::None => true,
        }),
        r matches Some(d) ==> d.wf(),
{
    let parts = match offset_hours {
        Option::Some(h) => {
            if h <= -24 || h >= 24 {
                return None;
            }
            let secs: i32 = (h as i32) * 3600;
            local_now_parts_at_offset(secs)
        },
        Option::None => local_now_parts(),
    };
    let (y, mo, d, h, mi, s) = parts;
    let dt = Datetime::from_ymd_hms(y, mo, d, h, mi, s);
    proof {
        assert(dt is Some);
    }
    dt
}

} // verus!

//! UTC instants at second precision, held as calendar fields.

use vstd::prelude::*;

verus! {

/// The earliest year that a chrono date can hold.
pub const MIN_YEAR: i32 = -262143;

/// The latest year that a chrono date can hold.
pub const MAX_YEAR: i32 = 262142;

/// A UTC instant, to the second, in the proleptic Gregorian calendar.
#[derive(Clone, Copy, Debug, PartialEq, Eq, Structural)]
pub struct UtcDateTime {
    pub year: i32,
    pub month: u32,
    pub day: u32,
    pub hour: u32,
    pub minute: u32,
    pub second: u32,
}

/// A UTC calendar day.
#[derive(Clone, Copy, Debug, PartialEq, Eq, Structural)]
pub struct CalendarDate {
    pub year: i32,
    pub month: u32,
    pub day: u32,
}

pub open spec fn is_leap_year(y: int) -> bool {
    (y % 4 == 0 && y % 100 != 0) || y % 400 == 0
}

pub open spec fn days_in_month(y: int, m: int) -> int {
    if m == 2 {
        if is_leap_year(y) { 29 } else { 28 }
    } else if m == 4 || m == 6 || m == 9 || m == 11 {
        30
    } else {
        31
    }
}

/// Days of year `y` that lie before the first of month `m`.
pub open spec fn days_before_month(y: int, m: int) -> int
    decreases m,
{
    if m <= 1 {
        0
    } else {
        days_before_month(y, m - 1) + days_in_month(y, m - 1)
    }
}

/// Leap years before year `y`, counted from a fixed origin; only differences matter.
pub open spec fn leap_years_before(y: int) -> int {
    (y - 1) / 4 - (y - 1) / 100 + (y - 1) / 400
}

/// Days from 1970-01-01 to the given calendar day (negative before it).
pub open spec fn days_since_epoch(y: int, m: int, d: int) -> int {
    365 * (y - 1970) + (leap_years_before(y) - leap_years_before(1970)) + days_before_month(y, m)
        + (d - 1)
}

impl UtcDateTime {
    /// The fields name an existing second that chrono can represent.
    pub open spec fn wf(&self) -> bool {
        &&& MIN_YEAR <= self.year <= MAX_YEAR
        &&& 1 <= self.month <= 12
        &&& 1 <= self.day <= days_in_month(self.year as int, self.month as int)
        &&& self.hour < 24
        &&& self.minute < 60
        &&& self.second < 60
    }

    /// Seconds since 1970-01-01T00:00:00Z, leap seconds not counted.
    pub open spec fn epoch_seconds(&self) -> int {
        days_since_epoch(self.year as int, self.month as int, self.day as int) * 86400
            + self.hour * 3600 + self.minute * 60 + self.second
    }

    pub open spec fn date(&self) -> CalendarDate {
        CalendarDate { year: self.year, month: self.month, day: self.day }
    }

    /// The calendar day of this instant, time of day dropped.
    pub fn calendar_date(&self) -> (r: CalendarDate)
        ensures
            r == self.date(),
    {
        CalendarDate { year: self.year, month: self.month, day: self.day }
    }
}

/// What chrono reads from a token in the pattern `%Y%m%dT%H%M%SZ`.
pub uninterp spec fn chrono_compact_utc(token: Seq<char>) -> Option<UtcDateTime>;

/// Relies on chrono's `NaiveDateTime::parse_from_str` with the pattern `%Y%m%dT%H%M%SZ`:
/// the result depends on the token alone, and a parsed value is a valid date and time
/// (chrono reports a leap second `60` as second 59).
#[verifier::external_body]
pub(crate) fn parse_compact_utc(token: &str) -> (r: Option<UtcDateTime>)
    ensures
        r == chrono_compact_utc(token@),
        r matches Some(t) ==> t.wf(),
{
    match chrono::NaiveDateTime::parse_from_str(token, "%Y%m%dT%H%M%SZ") {
        Ok(d) => Some(UtcDateTime {
            year: chrono::Datelike::year(&d),
            month: chrono::Datelike::month(&d),
            day: chrono::Datelike::day(&d),
            hour: chrono::Timelike::hour(&d),
            minute: chrono::Timelike::minute(&d),
            second: chrono::Timelike::second(&d),
        }),
        Err(_) => None,
    }
}

/// Relies on chrono's `Utc::now`: the system clock's current UTC time, a valid date and time.
#[verifier::external_body]
pub(crate) fn utc_now() -> (r: UtcDateTime)
    ensures
        r.wf(),
{
    let n = chrono::Utc::now();
    UtcDateTime {
        year: chrono::Datelike::year(&n),
        month: chrono::Datelike::month(&n),
        day: chrono::Datelike::day(&n),
        hour: chrono::Timelike::hour(&n),
        minute: chrono::Timelike::minute(&n),
        second: chrono::Timelike::second(&n),
    }
}

/// Relies on chrono's `DateTime<Utc> - DateTime<Utc>`: the elapsed whole seconds, leap seconds
/// not counted, which is the difference of the two Unix timestamps.
#[verifier::external_body]
pub(crate) fn seconds_between(from: &UtcDateTime, until: &UtcDateTime) -> (r: i64)
    requires
        from.wf(),
        until.wf(),
    ensures
        r == until.epoch_seconds() - from.epoch_seconds(),
{
    let f = chrono::TimeZone::with_ymd_and_hms(&chrono::Utc, from.year, from.month, from.day, from.hour,
        from.minute, from.second).unwrap();
    let u = chrono::TimeZone::with_ymd_and_hms(&chrono::Utc, until.year, until.month, until.day, until.hour,
        until.minute, until.second).unwrap();
    (u - f).num_seconds()
}

} // verus!

//! Calendar values as plain numbers, and the calls into `chrono` that parse
//! and format them.
use vstd::prelude::*;
use chrono::{Datelike, Timelike};
use crate::text::digit_char;

verus! {

/// A proleptic Gregorian calendar date (what `chrono::NaiveDate` holds).
#[derive(Clone, Copy, Debug, PartialEq, Eq)]
pub struct CalendarDate {
    pub year: i32,
    pub month: u32,
    pub day: u32,
}

/// A date and a time of day, without zone (what `chrono::NaiveDateTime` holds).
/// `nanosecond` may reach into the next second to represent a leap second.
#[derive(Clone, Copy, Debug, PartialEq, Eq)]
pub struct WallClock {
    pub date: CalendarDate,
    pub hour: u32,
    pub minute: u32,
    pub second: u32,
    pub nanosecond: u32,
}

/// An instant with a fixed UTC offset (what `chrono::DateTime<FixedOffset>` holds):
/// its UTC wall clock and the offset of local time from UTC, in seconds.
#[derive(Clone, Copy, Debug, PartialEq, Eq)]
pub struct ZonedDateTime {
    pub utc: WallClock,
    pub offset_seconds: i32,
}

pub open spec fn is_leap_year(y: int) -> bool {
    (y % 4 == 0 && y % 100 != 0) || y % 400 == 0
}

pub open spec fn days_in_month(y: int, m: int) -> int {
    if m == 2 {
        if is_leap_year(y) {
            29
        } else {
            28
        }
    } else if m == 4 || m == 6 || m == 9 || m == 11 {
        30
    } else {
        31
    }
}

/// A date that `chrono::NaiveDate` can represent.
pub open spec fn valid_date(d: CalendarDate) -> bool {
    &&& -262143 <= d.year <= 262142
    &&& 1 <= d.month <= 12
    &&& 1 <= d.day <= days_in_month(d.year as int, d.month as int)
}

/// A wall clock that `chrono::NaiveDateTime` can represent.
pub open spec fn valid_wall_clock(w: WallClock) -> bool {
    &&& valid_date(w.date)
    &&& w.hour < 24
    &&& w.minute < 60
    &&& w.second < 60
    &&& w.nanosecond < 2_000_000_000
    &&& (w.nanosecond >= 1_000_000_000 ==> w.second == 59)
}

/// An instant as RFC 3339 text yields it: four-digit local years, so the UTC year
/// lies between -1 and 10000, and an offset of less than a day.
pub open spec fn valid_zoned(z: ZonedDateTime) -> bool {
    &&& valid_wall_clock(z.utc)
    &&& -1 <= z.utc.date.year <= 10000
    &&& -86400 < z.offset_seconds < 86400
}

/// Name for what `NaiveDate::parse_from_str(text, "%Y-%m-%d")` returns.
pub uninterp spec fn parsed_iso_date(text: Seq<char>) -> Option<CalendarDate>;

/// Name for what `DateTime::parse_from_rfc3339(text)` returns.
pub uninterp spec fn parsed_rfc3339(text: Seq<char>) -> Option<ZonedDateTime>;

/// Name for what `NaiveDate::format(pattern).to_string()` returns.
pub uninterp spec fn date_text(d: CalendarDate, pattern: Seq<char>) -> Seq<char>;

/// Name for what `DateTime::<FixedOffset>::format(pattern).to_string()` returns.
pub uninterp spec fn zoned_text(z: ZonedDateTime, pattern: Seq<char>) -> Seq<char>;

/// The `strftime` patterns that the exporters hand to `chrono` for instants.
pub open spec fn datetime_pattern(p: Seq<char>) -> bool {
    ||| p == "%d/%m/%Y %H:%M:%S"@
    ||| p == "%d/%m/%Y"@
    ||| p == "%m/%d/%Y %H:%M:%S"@
    ||| p == "%m/%d/%Y"@
    ||| p == "%Y-%m-%d %H:%M:%S"@
    ||| p == "%Y-%m-%d"@
    ||| p == "%Y/%m/%d"@
}

/// The `strftime` patterns that the exporters hand to `chrono` for dates: those for
/// instants with their time fields ` %H:%M:%S` taken out.
pub open spec fn date_pattern(p: Seq<char>) -> bool {
    exists|q: Seq<char>| datetime_pattern(q) && p == crate::text::replaced(q, " %H:%M:%S"@, ""@)
}

/// Calls `chrono::NaiveDate::parse_from_str(text, "%Y-%m-%d")` and hands out the
/// year, month and day of the date it parsed. Claims that the result is a function of
/// the text alone, and that a parsed date is one that `NaiveDate` can represent.
#[verifier::external_body]
pub(crate) fn parse_iso_date(text: &str) -> (r: Option<CalendarDate>)
    ensures
        r == parsed_iso_date(text@),
        r matches Some(d) ==> valid_date(d),
{
    match chrono::NaiveDate::parse_from_str(text, "%Y-%m-%d") {
        Ok(d) => Some(CalendarDate { year: d.year(), month: d.month(), day: d.day() }),
        Err(_) => None,
    }
}

/// Calls `chrono::DateTime::parse_from_rfc3339(text)` and hands out the UTC wall
/// clock (`naive_utc`) and the offset of the instant it parsed. Claims that the
/// result is a function of the text alone, and what the RFC 3339 grammar in chrono's
/// source guarantees: a four-digit local year and an offset under a day.
#[verifier::external_body]
pub(crate) fn parse_rfc3339(text: &str) -> (r: Option<ZonedDateTime>)
    ensures
        r == parsed_rfc3339(text@),
        r matches Some(z) ==> valid_zoned(z),
{
    match chrono::DateTime::parse_from_rfc3339(text) {
        Ok(dt) => {
            let u = dt.naive_utc();
            let date = CalendarDate { year: u.year(), month: u.month(), day: u.day() };
            let (hour, minute, second, nanosecond) = (u.hour(), u.minute(), u.second(), u.nanosecond());
            let utc = WallClock { date, hour, minute, second, nanosecond };
            Some(ZonedDateTime { utc, offset_seconds: dt.offset().local_minus_utc() })
        },
        Err(_) => None,
    }
}

/// A number below 100 in two digits.
pub open spec fn two_digits(n: int) -> Seq<char> {
    seq![digit_char(n / 10), digit_char(n % 10)]
}

/// A year from 0 to 9999 in four digits.
pub open spec fn four_digits(n: int) -> Seq<char> {
    seq![digit_char(n / 1000), digit_char((n / 100) % 10), digit_char((n / 10) % 10), digit_char(n % 10)]
}

/// What `%d/%m/%Y`, `%m/%d/%Y`, `%Y-%m-%d` and `%Y/%m/%d` write for a date of the
/// years 0 to 9999: day and month in two digits, the year in four.
pub open spec fn date_fields_text(d: CalendarDate, p: Seq<char>) -> Seq<char> {
    let dd = two_digits(d.day as int);
    let mm = two_digits(d.month as int);
    let yyyy = four_digits(d.year as int);
    if p == "%d/%m/%Y"@ {
        dd + seq!['/'] + mm + seq!['/'] + yyyy
    } else if p == "%m/%d/%Y"@ {
        mm + seq!['/'] + dd + seq!['/'] + yyyy
    } else if p == "%Y-%m-%d"@ {
        yyyy + seq!['-'] + mm + seq!['-'] + dd
    } else {
        yyyy + seq!['/'] + mm + seq!['/'] + dd
    }
}

/// What ` %H:%M:%S` writes: hours, minutes and seconds in two digits (a leap second
/// as `60`).
pub open spec fn time_fields_text(w: WallClock) -> Seq<char> {
    let second = if w.nanosecond >= 1_000_000_000 {
        w.second + 1
    } else {
        w.second as int
    };
    seq![' '] + two_digits(w.hour as int) + seq![':'] + two_digits(w.minute as int) + seq![':']
        + two_digits(second)
}

/// What the export patterns write for a wall clock of the years 0 to 9999.
pub open spec fn datetime_fields_text(w: WallClock, p: Seq<char>) -> Seq<char> {
    if p == "%d/%m/%Y %H:%M:%S"@ {
        date_fields_text(w.date, "%d/%m/%Y"@) + time_fields_text(w)
    } else if p == "%m/%d/%Y %H:%M:%S"@ {
        date_fields_text(w.date, "%m/%d/%Y"@) + time_fields_text(w)
    } else if p == "%Y-%m-%d %H:%M:%S"@ {
        date_fields_text(w.date, "%Y-%m-%d"@) + time_fields_text(w)
    } else {
        date_fields_text(w.date, p)
    }
}

/// Calls `chrono::NaiveDate::format(pattern)` and renders it with `to_string`.
/// Claims that the text is a function of the date and the pattern, and, for the
/// years 0 to 9999, the zero-padded fields chrono's formatter writes; the pattern
/// holds date fields alone, so rendering cannot fail.
#[verifier::external_body]
pub(crate) fn format_calendar_date(d: CalendarDate, pattern: &str) -> (r: String)
    requires
        valid_date(d),
        date_pattern(pattern@),
    ensures
        r@ == date_text(d, pattern@),
        0 <= d.year <= 9999 ==> r@ == date_fields_text(d, pattern@),
{
    chrono::NaiveDate::from_ymd_opt(d.year, d.month, d.day).expect("valid date").format(
        pattern,
    ).to_string()
}

/// Calls `chrono::DateTime::<FixedOffset>::format(pattern)` on the instant and
/// renders it with `to_string`. Claims that the text is a function of the instant and
/// the pattern, and, for an instant in UTC (offset 0) of the years 0 to 9999, the
/// zero-padded fields of its wall clock. For other offsets the fields are those of the
/// local wall clock, which is not stated.
#[verifier::external_body]
pub(crate) fn format_zoned(z: ZonedDateTime, pattern: &str) -> (r: String)
    requires
        valid_zoned(z),
        datetime_pattern(pattern@),
    ensures
        r@ == zoned_text(z, pattern@),
        z.offset_seconds == 0 && 0 <= z.utc.date.year <= 9999 ==> r@ == datetime_fields_text(
            z.utc,
            pattern@,
        ),
{
    let w = z.utc;
    let utc = chrono::NaiveDate::from_ymd_opt(w.date.year, w.date.month, w.date.day).expect(
        "valid date",
    ).and_hms_nano_opt(w.hour, w.minute, w.second, w.nanosecond).expect("valid time");
    let offset = chrono::FixedOffset::east_opt(z.offset_seconds).expect("valid offset");
    chrono::DateTime::<chrono::FixedOffset>::from_naive_utc_and_offset(utc, offset).format(
        pattern,
    ).to_string()
}

} // verus!

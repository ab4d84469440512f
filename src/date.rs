use chrono::{Datelike, Timelike};
use vstd::prelude::*;

verus! {

/// Smallest year that a calendar date can hold.
pub const MIN_YEAR: i32 = -262143;

/// Largest year that a calendar date can hold.
pub const MAX_YEAR: i32 = 262142;

/// A day of the proleptic Gregorian calendar.
#[derive(Debug, Clone, Copy, PartialEq, Eq)]
pub struct CalDate {
    pub year: i32,
    pub month: u32,
    pub day: u32,
}

/// A time of day; a nanosecond count of a second or more marks a leap second.
#[derive(Debug, Clone, Copy, PartialEq, Eq)]
pub struct TimeOfDay {
    pub hour: u32,
    pub minute: u32,
    pub second: u32,
    pub nanosecond: u32,
}

pub open spec fn is_leap_year(y: int) -> bool {
    (y % 4 == 0 && y % 100 != 0) || y % 400 == 0
}

pub open spec fn days_in_month(y: int, m: int) -> int {
    if m == 2 {
        if is_leap_year(y) { 29 } else { 28 }
    } else if m == 4 || m == 6 || m == 9 || m == 11 {
        30
    } else {
        31
    }
}

impl CalDate {
    /// The date exists in the calendar and lies in the representable range.
    pub open spec fn valid(self) -> bool {
        &&& MIN_YEAR <= self.year <= MAX_YEAR
        &&& 1 <= self.month <= 12
        &&& 1 <= self.day <= days_in_month(self.year as int, self.month as int)
    }
}

impl TimeOfDay {
    pub open spec fn valid(self) -> bool {
        &&& self.hour < 24
        &&& self.minute < 60
        &&& self.second < 60
        &&& self.nanosecond < 2_000_000_000
        &&& self.nanosecond >= 1_000_000_000 ==> self.second == 59
    }
}

/// A normalised start/end pair. A time of day is present exactly when the
/// source value was a full timestamp.
#[derive(Debug, Clone, Copy, PartialEq, Eq)]
pub struct Date {
    pub start_date: CalDate,
    pub start_time: Option<TimeOfDay>,
    pub end_date: Option<CalDate>,
    pub end_time: Option<TimeOfDay>,
}

/// A start value, or a present end value, that is neither a timestamp nor a bare date.
#[derive(Debug, Clone, Copy, PartialEq, Eq)]
pub struct DateParseError;

impl Date {
    pub open spec fn wf(self) -> bool {
        &&& self.start_date.valid()
        &&& (self.start_time matches Some(t) ==> t.valid())
        &&& (self.end_date matches Some(d) ==> d.valid())
        &&& (self.end_time matches Some(t) ==> t.valid() && self.end_date is Some)
    }
}

/// What `DateTime::parse_from_rfc3339` reads from a string, as the local date and time.
pub uninterp spec fn rfc3339_parsed(s: Seq<char>) -> Option<(CalDate, TimeOfDay)>;

/// What `NaiveDate::parse_from_str` reads from a string with the format `%Y-%m-%d`.
pub uninterp spec fn ymd_parsed(s: Seq<char>) -> Option<CalDate>;

pub open spec fn is_digit(c: char) -> bool {
    '0' <= c <= '9'
}

pub open spec fn digit_value(c: char) -> int {
    c as int - '0' as int
}

/// `YYYY-MM-DD`: ten characters, digits with dashes at the fifth and eighth place.
pub open spec fn is_bare_date(s: Seq<char>) -> bool {
    &&& s.len() == 10
    &&& s[4] == '-' && s[7] == '-'
    &&& forall|i: int| 0 <= i < 10 && i != 4 && i != 7 ==> is_digit(#[trigger] s[i])
}

pub open spec fn digits_value(s: Seq<char>, from: int, to: int) -> int
    decreases to - from,
{
    if to <= from {
        0
    } else {
        digits_value(s, from, to - 1) * 10 + digit_value(s[to - 1])
    }
}

/// The date that the digits of a bare date string name, whether it exists or not.
pub open spec fn bare_date_fields(s: Seq<char>) -> CalDate {
    CalDate {
        year: digits_value(s, 0, 4) as i32,
        month: digits_value(s, 5, 7) as u32,
        day: digits_value(s, 8, 10) as u32,
    }
}

/// Relies on chrono's `DateTime::parse_from_rfc3339`, read back through `date_naive`
/// and `time`: chrono's dates and times are valid, and a timestamp takes at least
/// nineteen characters (`YYYY-MM-DDTHH:MM:SS`).
#[verifier::external_body]
fn parse_rfc3339(s: &str) -> (r: Option<(CalDate, TimeOfDay)>)
    ensures
        r == rfc3339_parsed(s@),
        r matches Some(p) ==> p.0.valid() && p.1.valid(),
        s@.len() < 19 ==> r is None,
{
    match chrono::DateTime::parse_from_rfc3339(s) {
        Ok(dt) => {
            let (d, t) = (dt.date_naive(), dt.time());
            let date = CalDate { year: d.year(), month: d.month(), day: d.day() };
            Some((date, TimeOfDay { hour: t.hour(), minute: t.minute(), second: t.second(), nanosecond: t.nanosecond() }))
        },
        Err(_) => None,
    }
}

/// Relies on chrono's `NaiveDate::parse_from_str` with the format `%Y-%m-%d`: its dates
/// are valid, on four, two and two digits it reads the date they name if it exists,
/// and a string that is empty or starts with a lower-case letter holds no year.
#[verifier::external_body]
fn parse_ymd(s: &str) -> (r: Option<CalDate>)
    ensures
        r == ymd_parsed(s@),
        r matches Some(d) ==> d.valid(),
        s@.len() == 0 ==> r is None,
        s@.len() > 0 && 'a' <= s@[0] <= 'z' ==> r is None,
        is_bare_date(s@) ==> r == (if bare_date_fields(s@).valid() {
            Some(bare_date_fields(s@))
        } else {
            None
        }),
{
    match chrono::NaiveDate::parse_from_str(s, "%Y-%m-%d") {
        Ok(d) => Some(CalDate { year: d.year(), month: d.month(), day: d.day() }),
        Err(_) => None,
    }
}

/// A single date value: a timestamp if it reads as one, else a bare date.
pub open spec fn parse_point(s: Seq<char>) -> Option<(CalDate, Option<TimeOfDay>)> {
    match rfc3339_parsed(s) {
        Some(p) => Some((p.0, Some(p.1))),
        None => match ymd_parsed(s) {
            Some(d) => Some((d, None)),
            None => None,
        },
    }
}

/// A date and, for a timestamp, a time of day, as read from one value.
pub type DatePoint = (CalDate, Option<TimeOfDay>);

/// The normalised date of a start reading and, where an end value is present,
/// an end reading; `None` stands for a value that did not parse.
pub open spec fn combine_points(start: Option<DatePoint>, end: Option<Option<DatePoint>>) -> Result<
    Date,
    DateParseError,
> {
    match start {
        None => Err(DateParseError),
        Some(s) => match end {
            None => Ok(Date { start_date: s.0, start_time: s.1, end_date: None, end_time: None }),
            Some(None) => Err(DateParseError),
            Some(Some(e)) => Ok(
                Date { start_date: s.0, start_time: s.1, end_date: Some(e.0), end_time: e.1 },
            ),
        },
    }
}

/// The normalised form of a start value and an optional end value.
pub open spec fn normalize_spec(start: Seq<char>, end: Option<Seq<char>>) -> Result<
    Date,
    DateParseError,
> {
    combine_points(
        parse_point(start),
        match end {
            Some(e) => Some(parse_point(e)),
            None => None,
        },
    )
}

pub open spec fn point_valid(p: DatePoint) -> bool {
    p.0.valid() && (p.1 matches Some(t) ==> t.valid())
}

fn parse_point_exec(s: &str) -> (r: Option<(CalDate, Option<TimeOfDay>)>)
    ensures
        r == parse_point(s@),
        r matches Some(p) ==> point_valid(p),
        s@.len() == 0 ==> r is None,
        s@.len() < 19 && s@.len() > 0 && 'a' <= s@[0] <= 'z' ==> r is None,
        is_bare_date(s@) ==> rfc3339_parsed(s@) is None && ymd_parsed(s@) == (if bare_date_fields(
            s@,
        ).valid() {
            Some(bare_date_fields(s@))
        } else {
            None
        }),
{
    match parse_rfc3339(s) {
        Some(p) => Some((p.0, Some(p.1))),
        None => match parse_ymd(s) {
            Some(d) => Some((d, None)),
            None => None,
        },
    }
}

impl Date {
    /// Normalises a start value and an optional end value. Each is read as an
    /// RFC 3339 timestamp, or failing that as a bare `YYYY-MM-DD` date.
    pub fn normalize(start: &str, end: Option<&str>) -> (r: Result<Date, DateParseError>)
        ensures
            r == normalize_spec(start@, match end {
                Some(e) => Some(e@),
                None => None,
            }),
            r matches Ok(d) ==> d.wf(),
            end is None ==> (rfc3339_parsed(start@) matches Some(p) ==> r == Ok::<Date, DateParseError>(
                Date { start_date: p.0, start_time: Some(p.1), end_date: None, end_time: None },
            )),
            start@.len() == 0 ==> r is Err,
            start@.len() < 19 && start@.len() > 0 && 'a' <= start@[0] <= 'z' ==> r is Err,
            end is None && is_bare_date(start@) ==> r == (if bare_date_fields(start@).valid() {
                Ok(
                    Date {
                        start_date: bare_date_fields(start@),
                        start_time: None,
                        end_date: None,
                        end_time: None,
                    },
                )
            } else {
                Err(DateParseError)
            }),
    {
        let s = parse_point_exec(start);
        let e = match end {
            Some(e) => Some(parse_point_exec(e)),
            None => None,
        };
        Date::from_points(s, e)
    }

    /// The normalised date of a start reading and, where an end value is present,
    /// an end reading, each `None` where its value did not parse.
    pub fn from_points(start: Option<DatePoint>, end: Option<Option<DatePoint>>) -> (r: Result<
        Date,
        DateParseError,
    >)
        ensures
            r == combine_points(start, end),
            (start matches Some(s) ==> point_valid(s)) && (end matches Some(Some(e)) ==> point_valid(
                e,
            )) ==> (r matches Ok(d) ==> d.wf()),
    {
        match start {
            None => Err(DateParseError),
            Some(s) => match end {
                None => Ok(Date { start_date: s.0, start_time: s.1, end_date: None, end_time: None }),
                Some(None) => Err(DateParseError),
                Some(Some(e)) => Ok(
                    Date { start_date: s.0, start_time: s.1, end_date: Some(e.0), end_time: e.1 },
                ),
            },
        }
    }
}

} // verus!

//! Instants of time, counted in whole seconds, and the calendar arithmetic
//! that chrono does on them.

use chrono::{DateTime, TimeDelta, TimeZone, Utc};
use vstd::prelude::*;

verus! {

/// The instant of the first date that chrono's `DateTime<Utc>` can hold,
/// midnight before the first of January of the year -262143, in seconds
/// since the first of January 1970, 0:00:00 UTC.
pub const MIN_UNIX_SECONDS: i64 = -8_334_601_228_800;

/// The last whole second that chrono's `DateTime<Utc>` can hold, the end of
/// the year 262142, in seconds since the first of January 1970, 0:00:00 UTC.
pub const MAX_UNIX_SECONDS: i64 = 8_210_266_876_799;

/// The first year of chrono's calendar.
pub const MIN_YEAR: i32 = -262_143;

/// The last year of chrono's calendar.
pub const MAX_YEAR: i32 = 262_142;

/// The seconds of a day; the calendar knows no leap second.
pub const SECONDS_PER_DAY: i64 = 86_400;

/// The longest span of time, in seconds, that chrono's `TimeDelta` can hold
/// in either direction: `i64::MAX` milliseconds.
pub const MAX_SPAN_SECONDS: i64 = 9_223_372_036_854_775;

/// Whether an instant, in seconds since 1970, lies in the calendar.
pub open spec fn in_calendar(seconds: int) -> bool {
    MIN_UNIX_SECONDS <= seconds <= MAX_UNIX_SECONDS
}

/// Whether a span of time, in seconds, is one that `TimeDelta` can hold.
pub open spec fn in_span(seconds: int) -> bool {
    -MAX_SPAN_SECONDS <= seconds <= MAX_SPAN_SECONDS
}

/// The leap years of the Gregorian calendar, carried back before its
/// introduction; the year 0 is the year before the year 1.
pub open spec fn is_leap_year(year: int) -> bool {
    year % 4 == 0 && (year % 100 != 0 || year % 400 == 0)
}

/// The number of days of a month, for a month from 1 to 12.
pub open spec fn days_in_month(year: int, month: int) -> int {
    if month == 2 {
        if is_leap_year(year) {
            29
        } else {
            28
        }
    } else if month == 4 || month == 6 || month == 9 || month == 11 {
        30
    } else {
        31
    }
}

/// Whether six numbers are a date of the calendar and a time of day.
pub open spec fn is_civil(
    year: int,
    month: int,
    day: int,
    hour: int,
    minute: int,
    second: int,
) -> bool {
    &&& MIN_YEAR <= year <= MAX_YEAR
    &&& 1 <= month <= 12
    &&& 1 <= day <= days_in_month(year, month)
    &&& 0 <= hour < 24
    &&& 0 <= minute < 60
    &&& 0 <= second < 60
}

/// The seconds from the first of January 1970, 0:00:00 UTC, to a date and
/// time of day in UTC, as chrono counts them. It is chrono's count and is
/// not written out here; it has a meaning only where `is_civil` holds.
pub uninterp spec fn utc_civil_seconds(
    year: int,
    month: int,
    day: int,
    hour: int,
    minute: int,
    second: int,
) -> int;

/// chrono's `TimeZone::with_ymd_and_hms` on `Utc`, with the result of
/// `MappedLocalTime::single` read by `DateTime::timestamp`.
///
/// Assumed of chrono: a date and time of its calendar, and nothing else,
/// gives an instant; the instant is `utc_civil_seconds` of the six numbers
/// and lies between the calendar's first and last second.
#[verifier::external_body]
fn utc_timestamp(year: i32, month: u32, day: u32, hour: u32, minute: u32, second: u32) -> (seconds:
    Option<i64>)
    ensures
        seconds is Some <==> is_civil(
            year as int,
            month as int,
            day as int,
            hour as int,
            minute as int,
            second as int,
        ),
        seconds matches Some(s) ==> s == utc_civil_seconds(
            year as int,
            month as int,
            day as int,
            hour as int,
            minute as int,
            second as int,
        ) && in_calendar(s as int),
{
    match Utc.with_ymd_and_hms(year, month, day, hour, minute, second).single() {
        Some(instant) => Some(instant.timestamp()),
        None => None,
    }
}

/// chrono's `DateTime::signed_duration_since`, between two instants made by
/// `DateTime::from_timestamp` and read back by `TimeDelta::num_seconds`.
///
/// Assumed of chrono: two instants of the calendar are that many seconds
/// apart, the calendar having no leap second; an instant outside the
/// calendar cannot be made.
#[verifier::external_body]
fn elapsed_seconds(from: i64, to: i64) -> (elapsed: Option<i64>)
    ensures
        elapsed is Some <==> (in_calendar(from as int) && in_calendar(to as int)),
        elapsed matches Some(e) ==> e == to - from,
{
    let start: DateTime<Utc> = DateTime::from_timestamp(from, 0)?;
    let end: DateTime<Utc> = DateTime::from_timestamp(to, 0)?;
    Some(end.signed_duration_since(start).num_seconds())
}

/// chrono's `TimeDelta::try_days`, read back by `TimeDelta::num_seconds`.
///
/// Assumed of chrono: a span of days has 86400 seconds for each day; one
/// longer than `TimeDelta` can hold cannot be made.
#[verifier::external_body]
fn day_span_seconds(days: i64) -> (seconds: Option<i64>)
    ensures
        seconds is Some <==> in_span(days * SECONDS_PER_DAY),
        seconds matches Some(s) ==> s == days * SECONDS_PER_DAY,
{
    match TimeDelta::try_days(days) {
        Some(span) => Some(span.num_seconds()),
        None => None,
    }
}

/// chrono's `DateTime::checked_add_signed`, on an instant made by
/// `DateTime::from_timestamp` and a span made by `TimeDelta::try_seconds`,
/// read back by `DateTime::timestamp`.
///
/// Assumed of chrono: an instant of the calendar moved by a span is that
/// many seconds later, where that is still in the calendar, and cannot be
/// had where it is not.
#[verifier::external_body]
fn moved_seconds(instant: i64, span: i64) -> (moved: Option<i64>)
    ensures
        moved is Some <==> (in_calendar(instant as int) && in_span(span as int) && in_calendar(
            instant + span,
        )),
        moved matches Some(m) ==> m == instant + span,
{
    let start: DateTime<Utc> = DateTime::from_timestamp(instant, 0)?;
    let shift: TimeDelta = TimeDelta::try_seconds(span)?;
    match start.checked_add_signed(shift) {
        Some(end) => Some(end.timestamp()),
        None => None,
    }
}

/// An instant of the calendar, to the second: what a `DateTime` of chrono
/// holds, without its time zone and without the part of a second.
#[derive(Clone, Copy, Debug)]
pub struct Timestamp {
    seconds: i64,
}

impl View for Timestamp {
    type V = int;

    /// The seconds from the first of January 1970, 0:00:00 UTC.
    closed spec fn view(&self) -> int {
        self.seconds as int
    }
}

impl Timestamp {
    #[verifier::type_invariant]
    closed spec fn within_calendar(self) -> bool {
        in_calendar(self.seconds as int)
    }

    /// The instant that many seconds after the first of January 1970,
    /// 0:00:00 UTC, or before it for a negative number; `None` outside the
    /// calendar.
    pub fn from_unix_seconds(seconds: i64) -> (instant: Option<Timestamp>)
        ensures
            instant is Some <==> in_calendar(seconds as int),
            instant matches Some(t) ==> t@ == seconds,
    {
        if MIN_UNIX_SECONDS <= seconds && seconds <= MAX_UNIX_SECONDS {
            Some(Timestamp { seconds })
        } else {
            None
        }
    }

    /// The seconds from the first of January 1970, 0:00:00 UTC.
    pub fn unix_seconds(&self) -> (seconds: i64)
        ensures
            seconds == self@,
            in_calendar(seconds as int),
    {
        proof {
            use_type_invariant(self);
        }
        self.seconds
    }

    /// The instant of a date and a time of day in UTC; `None` where the six
    /// numbers are no date of the calendar or no time of day.
    pub fn from_utc(year: i32, month: u32, day: u32, hour: u32, minute: u32, second: u32) -> (instant:
        Option<Timestamp>)
        ensures
            instant is Some <==> is_civil(
                year as int,
                month as int,
                day as int,
                hour as int,
                minute as int,
                second as int,
            ),
            instant matches Some(t) ==> t@ == utc_civil_seconds(
                year as int,
                month as int,
                day as int,
                hour as int,
                minute as int,
                second as int,
            ),
    {
        match utc_timestamp(year, month, day, hour, minute, second) {
            Some(seconds) => Some(Timestamp { seconds }),
            None => None,
        }
    }

    /// The seconds from an earlier instant to this one; negative where the
    /// other instant is the later one.
    pub fn seconds_since(&self, earlier: &Timestamp) -> (elapsed: i64)
        ensures
            elapsed == self@ - earlier@,
    {
        proof {
            use_type_invariant(self);
            use_type_invariant(earlier);
        }
        elapsed_seconds(earlier.seconds, self.seconds).unwrap()
    }

    /// The instant that many days later, or earlier for a negative number;
    /// `None` where that is outside the calendar.
    pub fn plus_days(&self, days: i64) -> (later: Option<Timestamp>)
        ensures
            later is Some <==> in_calendar(self@ + days * SECONDS_PER_DAY),
            later matches Some(t) ==> t@ == self@ + days * SECONDS_PER_DAY,
    {
        proof {
            use_type_invariant(self);
        }
        match day_span_seconds(days) {
            Some(span) => match moved_seconds(self.seconds, span) {
                Some(seconds) => Some(Timestamp { seconds }),
                None => None,
            },
            None => None,
        }
    }
}

} // verus!

//! The age of the moon on a date, and the phase that belongs to an age.

use crate::calendar::{utc_civil_seconds, Timestamp};
use crate::phase::MoonPhase;
use vstd::prelude::*;

verus! {

/// The milliseconds of a second: ages are counted in milliseconds.
pub const MILLIS_PER_SECOND: i64 = 1_000;

/// The synodic month, from one new moon to the next: 29.53059 days of 86400
/// seconds, in milliseconds.
pub const SYNODIC_MONTH: i64 = 2_551_442_976;

/// Twice the synodic month; a percentage is rounded by halves of it.
pub const TWO_SYNODIC_MONTHS: i64 = 5_102_885_952;

/// The age of the moon: the time since a new moon, in milliseconds. An age
/// that a date gives lies within one synodic month; any other number can be
/// written here too, and is of no phase where it is far outside.
#[derive(Clone, Copy, Debug, PartialEq, Eq, Structural)]
pub struct MoonAge {
    pub millis: i64,
}

impl View for MoonAge {
    type V = int;

    open spec fn view(&self) -> int {
        self.millis as int
    }
}

/// The age of the moon a number of seconds after a new moon: what is left
/// of the time after the last full synodic month in it. For a time before
/// the new moon it is counted from the last new moon before that time.
pub open spec fn age_after_seconds(seconds: int) -> int {
    (seconds * MILLIS_PER_SECOND) % (SYNODIC_MONTH as int)
}

/// The age of the moon at an instant, given the instant of a new moon, both
/// in seconds: the age after the time between the two.
pub open spec fn moon_age_between(new_moon: int, date: int) -> int {
    age_after_seconds(date - new_moon)
}

/// The instant of the new moon that ages are counted from: the first of
/// January 1900, 0:00:00 UTC.
pub open spec fn known_new_moon_seconds() -> int {
    utc_civil_seconds(1900, 1, 1, 0, 0, 0)
}

/// The age of the moon at an instant, in seconds since 1970.
pub open spec fn moon_age_at(date: int) -> int {
    moon_age_between(known_new_moon_seconds(), date)
}

/// The share of the synodic month that an age has covered, as a percentage
/// rounded to the nearest whole number, a half away from zero.
pub open spec fn percent_of_period(age: int) -> int {
    if age >= 0 {
        (200 * age + SYNODIC_MONTH) / (TWO_SYNODIC_MONTHS as int)
    } else {
        -((200 * (-age) + SYNODIC_MONTH) / (TWO_SYNODIC_MONTHS as int))
    }
}

/// The percentages of each phase. Those of `Unknown` are the ones that no
/// share of a month can have.
pub open spec fn in_band(phase: MoonPhase, percent: int) -> bool {
    match phase {
        MoonPhase::NewMoon => 0 <= percent <= 1 || 99 <= percent <= 100,
        MoonPhase::WaxingCrescent => 2 <= percent <= 23,
        MoonPhase::FirstQuarter => 24 <= percent <= 26,
        MoonPhase::WaxingGibbous => 27 <= percent <= 48,
        MoonPhase::FullMoon => 49 <= percent <= 51,
        MoonPhase::WaningGibbous => 52 <= percent <= 73,
        MoonPhase::LastQuarter => 74 <= percent <= 76,
        MoonPhase::WaningCrescent => 77 <= percent <= 98,
        MoonPhase::Unknown => percent < 0 || percent > 100,
    }
}

/// The phase of a percentage of the synodic month.
pub open spec fn phase_of_percent(percent: int) -> MoonPhase {
    if percent < 0 || percent > 100 {
        MoonPhase::Unknown
    } else if percent <= 1 || percent >= 99 {
        MoonPhase::NewMoon
    } else if percent <= 23 {
        MoonPhase::WaxingCrescent
    } else if percent <= 26 {
        MoonPhase::FirstQuarter
    } else if percent <= 48 {
        MoonPhase::WaxingGibbous
    } else if percent <= 51 {
        MoonPhase::FullMoon
    } else if percent <= 73 {
        MoonPhase::WaningGibbous
    } else if percent <= 76 {
        MoonPhase::LastQuarter
    } else {
        MoonPhase::WaningCrescent
    }
}

/// The phase of an age of the moon.
pub open spec fn phase_of_age(age: int) -> MoonPhase {
    phase_of_percent(percent_of_period(age))
}

impl MoonAge {
    /// Whether the age lies within one synodic month, as the age on a date
    /// does.
    pub open spec fn in_cycle(self) -> bool {
        0 <= self@ < SYNODIC_MONTH
    }

    /// The age of the moon a number of seconds after a new moon.
    pub fn after_seconds(seconds: i64) -> (age: MoonAge)
        ensures
            age@ == age_after_seconds(seconds as int),
            age.in_cycle(),
    {
        let per_second: i128 = MILLIS_PER_SECOND as i128;
        assert(per_second == 1_000);
        let elapsed: i128 = (seconds as i128) * per_second;
        let left: i128 = elapsed.checked_rem_euclid(SYNODIC_MONTH as i128).unwrap();
        MoonAge { millis: left as i64 }
    }

    /// The share of the synodic month that the age has covered, as a
    /// percentage rounded to the nearest whole number, a half away from
    /// zero.
    pub fn percent(&self) -> (percent: i64)
        ensures
            percent == percent_of_period(self@),
    {
        let age: i128 = self.millis as i128;
        let month: i128 = SYNODIC_MONTH as i128;
        let halves: i128 = TWO_SYNODIC_MONTHS as i128;
        if age >= 0 {
            ((200 * age + month) / halves) as i64
        } else {
            (-((200 * (-age) + month) / halves)) as i64
        }
    }
}

/// The new moon that ages are counted from: the first of January 1900,
/// 0:00:00 UTC.
pub fn known_new_moon() -> (instant: Timestamp)
    ensures
        instant@ == known_new_moon_seconds(),
{
    Timestamp::from_utc(1900, 1, 1, 0, 0, 0).unwrap()
}

/// The age of the moon at a date, counted from a given new moon.
pub fn moon_age_since(new_moon: Timestamp, date: Timestamp) -> (age: MoonAge)
    ensures
        age@ == moon_age_between(new_moon@, date@),
        age.in_cycle(),
{
    MoonAge::after_seconds(date.seconds_since(&new_moon))
}

/// The age of the moon at a date: the time since the new moon of the first
/// of January 1900, less the full synodic months in it. The time of day
/// counts: the time is taken to the second, not in whole days.
pub fn calc_moon_age(current_date: Timestamp) -> (age: MoonAge)
    ensures
        age@ == moon_age_at(current_date@),
        age.in_cycle(),
{
    moon_age_since(known_new_moon(), current_date)
}

/// The phase of the moon at an age: that of the age's rounded percentage of
/// the synodic month, and `Unknown` where that is below 0 or above 100.
pub fn current_phase(moon_age: MoonAge) -> (phase: MoonPhase)
    ensures
        phase == phase_of_age(moon_age@),
        in_band(phase, percent_of_period(moon_age@)),
{
    let percent: i64 = moon_age.percent();
    if percent < 0 || percent > 100 {
        MoonPhase::Unknown
    } else if percent <= 1 || percent >= 99 {
        MoonPhase::NewMoon
    } else if percent <= 23 {
        MoonPhase::WaxingCrescent
    } else if percent <= 26 {
        MoonPhase::FirstQuarter
    } else if percent <= 48 {
        MoonPhase::WaxingGibbous
    } else if percent <= 51 {
        MoonPhase::FullMoon
    } else if percent <= 73 {
        MoonPhase::WaningGibbous
    } else if percent <= 76 {
        MoonPhase::LastQuarter
    } else {
        MoonPhase::WaningCrescent
    }
}

/// The phase of the moon at a date, which is always one of the eight.
pub fn phase_at(date: Timestamp) -> (phase: MoonPhase)
    ensures
        phase == phase_of_age(moon_age_at(date@)),
        phase != MoonPhase::Unknown,
{
    let age: MoonAge = calc_moon_age(date);
    proof {
        every_age_has_a_phase(age@);
    }
    current_phase(age)
}

/// The age after any time lies within one synodic month, and so does the
/// age at any instant, counted from any new moon.
pub proof fn age_lies_in_cycle(seconds: int, new_moon: int, date: int)
    ensures
        0 <= age_after_seconds(seconds) < SYNODIC_MONTH,
        0 <= moon_age_between(new_moon, date) < SYNODIC_MONTH,
        0 <= moon_age_at(date) < SYNODIC_MONTH,
{
}

/// The rounded percentage is the whole number nearest to the share of the
/// synodic month that the age has covered: off by a half at most, and by
/// just a half only on the side away from zero.
pub proof fn percent_is_nearest(age: int)
    ensures
        age >= 0 ==> -SYNODIC_MONTH <= 2 * (100 * age - percent_of_period(age) * SYNODIC_MONTH)
            < SYNODIC_MONTH,
        age < 0 ==> -SYNODIC_MONTH < 2 * (100 * age - percent_of_period(age) * SYNODIC_MONTH)
            <= SYNODIC_MONTH,
{
}

/// An age within one synodic month covers a share of it from 0 up to, and
/// not reaching, 100 in a hundred; its rounded percentage lies from 0 to
/// 100, and its phase is one of the eight.
pub proof fn every_age_has_a_phase(age: int)
    requires
        0 <= age < SYNODIC_MONTH,
    ensures
        0 <= 100 * age < 100 * SYNODIC_MONTH,
        0 <= percent_of_period(age) <= 100,
        phase_of_age(age) != MoonPhase::Unknown,
{
}

/// The bands part the percentages: every percentage lies in the band of its
/// phase and in no other.
pub proof fn bands_part_the_percentages(phase: MoonPhase, percent: int)
    ensures
        in_band(phase, percent) <==> phase == phase_of_percent(percent),
{
}

/// The same age is always of the same phase.
pub proof fn same_age_same_phase(first: MoonAge, second: MoonAge)
    requires
        first@ == second@,
    ensures
        phase_of_age(first@) == phase_of_age(second@),
{
}

/// A new moon is at age 0, a full moon at half the synodic month, and the
/// last hundredth and a half of the month is new moon again.
pub proof fn phases_at_the_marks(age: int)
    ensures
        phase_of_age(0) == MoonPhase::NewMoon,
        percent_of_period(SYNODIC_MONTH / 2) == 50,
        phase_of_age(SYNODIC_MONTH / 2) == MoonPhase::FullMoon,
        (197 * SYNODIC_MONTH <= 200 * age < 200 * SYNODIC_MONTH) ==> phase_of_age(age)
            == MoonPhase::NewMoon,
{
}

/// At the new moon that ages are counted from, the age is 0 and the phase
/// is new moon.
pub proof fn new_moon_at_the_start()
    ensures
        moon_age_at(known_new_moon_seconds()) == 0,
        phase_of_age(moon_age_at(known_new_moon_seconds())) == MoonPhase::NewMoon,
{
}

} // verus!

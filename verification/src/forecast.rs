//! The phases of the days to come, from a date on.

use crate::calendar::{in_calendar, Timestamp, SECONDS_PER_DAY};
use crate::moon::{moon_age_at, phase_at, phase_of_age};
use crate::phase::MoonPhase;
use vstd::prelude::*;

verus! {

/// The most days that a forecast can run over.
pub const MAX_FORECAST_DAYS: u8 = 30;

/// Why there is no forecast.
#[derive(Clone, Copy, Debug, PartialEq, Eq, Structural)]
pub enum ForecastError {
    /// More days were asked for than a forecast can run over.
    TooManyDays,
    /// The days asked for run past the last day of the calendar.
    PastTheCalendar,
}

impl ForecastError {
    /// What the user is told.
    pub open spec fn message_text(self) -> Seq<char> {
        match self {
            ForecastError::TooManyDays => "i only fetch forecasts of up to 30 days."@,
            ForecastError::PastTheCalendar => "the forecast runs past the last day of the calendar."@,
        }
    }

    /// What the user is told.
    pub fn message(&self) -> (text: &'static str)
        ensures
            text@ == self.message_text(),
    {
        match self {
            ForecastError::TooManyDays => "i only fetch forecasts of up to 30 days.",
            ForecastError::PastTheCalendar => "the forecast runs past the last day of the calendar.",
        }
    }
}

/// The instant of a day of a forecast: the start for day 0, and a day later
/// for each day after it.
pub open spec fn forecast_instant(start: int, day: int) -> int {
    start + day * SECONDS_PER_DAY
}

/// The phase on a day of a forecast.
pub open spec fn forecast_phase(start: int, day: int) -> MoonPhase {
    phase_of_age(moon_age_at(forecast_instant(start, day)))
}

/// Whether all the days of a forecast lie in the calendar: its last day
/// does, where it has a day at all.
pub open spec fn forecast_fits(start: int, days: int) -> bool {
    days <= 0 || in_calendar(forecast_instant(start, days - 1))
}

/// The phases of the day of `start` and of the days after it, `days` days in
/// all and in their order. No days give no phases. More than 30 days are
/// refused, and so are days that the calendar does not reach.
pub fn forecast(start: Timestamp, days: u8) -> (result: Result<Vec<MoonPhase>, ForecastError>)
    ensures
        match result {
            Ok(phases) => {
                &&& days <= MAX_FORECAST_DAYS
                &&& forecast_fits(start@, days as int)
                &&& phases@.len() == days
                &&& forall|day: int|
                    0 <= day < days ==> #[trigger] phases@[day] == forecast_phase(start@, day)
            },
            Err(ForecastError::TooManyDays) => days > MAX_FORECAST_DAYS,
            Err(ForecastError::PastTheCalendar) => {
                &&& days <= MAX_FORECAST_DAYS
                &&& !forecast_fits(start@, days as int)
            },
        },
{
    if days > MAX_FORECAST_DAYS {
        return Err(ForecastError::TooManyDays);
    }
    let first: i64 = start.unix_seconds();
    let mut phases: Vec<MoonPhase> = Vec::new();
    let mut day: u8 = 0;
    while day < days
        invariant
            day <= days <= MAX_FORECAST_DAYS,
            first == start@,
            in_calendar(first as int),
            phases@.len() == day,
            day > 0 ==> in_calendar(forecast_instant(start@, day - 1)),
            forall|earlier: int|
                0 <= earlier < day ==> #[trigger] phases@[earlier] == forecast_phase(
                    start@,
                    earlier,
                ),
        decreases days - day,
    {
        match start.plus_days(day as i64) {
            Some(date) => {
                phases.push(phase_at(date));
            },
            None => {
                return Err(ForecastError::PastTheCalendar);
            },
        }
        day = day + 1;
    }
    Ok(phases)
}

} // verus!

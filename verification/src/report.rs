//! What is shown to the user, line by line.

use crate::calendar::Timestamp;
use crate::forecast::{forecast, forecast_fits, forecast_phase, ForecastError, MAX_FORECAST_DAYS};
use crate::moon::{moon_age_at, phase_at, phase_of_age};
use crate::phase::MoonPhase;
use vstd::prelude::*;
use vstd::string::StringExecFns;

verus! {

/// A digit, written out.
pub open spec fn digit_text(digit: nat) -> Seq<char> {
    if digit == 0 {
        "0"@
    } else if digit == 1 {
        "1"@
    } else if digit == 2 {
        "2"@
    } else if digit == 3 {
        "3"@
    } else if digit == 4 {
        "4"@
    } else if digit == 5 {
        "5"@
    } else if digit == 6 {
        "6"@
    } else if digit == 7 {
        "7"@
    } else if digit == 8 {
        "8"@
    } else {
        "9"@
    }
}

/// A number, written in decimal digits with no leading zero.
pub open spec fn decimal_text(number: nat) -> Seq<char>
    decreases number,
{
    if number < 10 {
        digit_text(number)
    } else {
        decimal_text(number / 10) + digit_text(number % 10)
    }
}

/// The line that tells the phase of the moon at an instant.
pub open spec fn phase_line_text(now: int) -> Seq<char> {
    "The current moon phase is: "@ + phase_of_age(moon_age_at(now)).display_text()
}

/// The line before the phases of a forecast.
pub open spec fn forecast_heading_text(days: nat) -> Seq<char> {
    "Calculating the moon phase forecast for "@ + decimal_text(days) + " days..."@
}

/// The lines of a forecast: none for no days; for up to 30 days a heading
/// and one line for each day, in their order; else the one line that says
/// why there is no forecast.
pub open spec fn forecast_lines_text(start: int, days: nat) -> Seq<Seq<char>> {
    if days == 0 {
        Seq::empty()
    } else if days > MAX_FORECAST_DAYS {
        seq![ForecastError::TooManyDays.message_text()]
    } else if !forecast_fits(start, days as int) {
        seq![ForecastError::PastTheCalendar.message_text()]
    } else {
        seq![forecast_heading_text(days)] + Seq::new(
            days,
            |day: int| forecast_phase(start, day).display_text(),
        )
    }
}

/// All the lines of a run: the phase of the moon now, where it is asked
/// for, and then the lines of the forecast.
pub open spec fn report_text(now: int, show_phase: bool, forecast_days: nat) -> Seq<Seq<char>> {
    if show_phase {
        seq![phase_line_text(now)] + forecast_lines_text(now, forecast_days)
    } else {
        forecast_lines_text(now, forecast_days)
    }
}

fn digit(value: u8) -> (text: &'static str)
    requires
        value < 10,
    ensures
        text@ == digit_text(value as nat),
{
    if value == 0 {
        "0"
    } else if value == 1 {
        "1"
    } else if value == 2 {
        "2"
    } else if value == 3 {
        "3"
    } else if value == 4 {
        "4"
    } else if value == 5 {
        "5"
    } else if value == 6 {
        "6"
    } else if value == 7 {
        "7"
    } else if value == 8 {
        "8"
    } else {
        "9"
    }
}

/// Writes a number in decimal digits.
fn decimal(number: u8) -> (text: String)
    ensures
        text@ == decimal_text(number as nat),
{
    let mut text: String = String::new();
    if number >= 100 {
        text.append(digit(number / 100));
    }
    if number >= 10 {
        text.append(digit((number / 10) % 10));
    }
    text.append(digit(number % 10));
    proof {
        reveal_with_fuel(decimal_text, 3);
        assert(text@ =~= decimal_text(number as nat));
    }
    text
}

/// The line that tells the phase of the moon now.
pub fn phase_line(now: Timestamp) -> (line: String)
    ensures
        line@ == phase_line_text(now@),
{
    let mut line: String = "The current moon phase is: ".to_owned();
    let shown: String = phase_at(now).to_string();
    line.append(shown.as_str());
    line
}

/// The text shown for each of some phases, in their order.
fn shown_phases(phases: &Vec<MoonPhase>) -> (lines: Vec<String>)
    ensures
        lines@.len() == phases@.len(),
        forall|at: int|
            0 <= at < phases@.len() ==> (#[trigger] lines@[at])@ == phases@[at].display_text(),
{
    let mut lines: Vec<String> = Vec::new();
    let mut at: usize = 0;
    while at < phases.len()
        invariant
            at <= phases@.len(),
            lines@.len() == at,
            forall|earlier: int|
                0 <= earlier < at ==> (#[trigger] lines@[earlier])@
                    == phases@[earlier].display_text(),
        decreases phases@.len() - at,
    {
        lines.push(phases[at].to_string());
        at = at + 1;
    }
    lines
}

/// The line before the phases of a forecast over `days` days.
pub fn forecast_heading(days: u8) -> (heading: String)
    ensures
        heading@ == forecast_heading_text(days as nat),
{
    let mut heading: String = "Calculating the moon phase forecast for ".to_owned();
    let count: String = decimal(days);
    heading.append(count.as_str());
    heading.append(" days...");
    heading
}

/// The lines of a forecast from `start` on, over `days` days.
pub fn forecast_lines(start: Timestamp, days: u8) -> (lines: Vec<String>)
    ensures
        lines.deep_view() == forecast_lines_text(start@, days as nat),
{
    let mut lines: Vec<String> = Vec::new();
    match forecast(start, days) {
        Ok(phases) => {
            if days > 0 {
                lines.push(forecast_heading(days));
                let mut shown: Vec<String> = shown_phases(&phases);
                let ghost texts = shown@;
                lines.append(&mut shown);
                assert forall|at: int| 0 <= at < days + 1 implies #[trigger] lines.deep_view()[at]
                    == forecast_lines_text(start@, days as nat)[at] by {
                    if at > 0 {
                        assert(lines@[at] == texts[at - 1]);
                        assert(phases@[at - 1] == forecast_phase(start@, at - 1));
                    }
                }
            }
        },
        Err(error) => {
            lines.push(error.message().to_owned());
        },
    }
    assert(lines.deep_view() =~= forecast_lines_text(start@, days as nat));
    lines
}

/// All the lines of a run: the phase of the moon now, where `show_phase`
/// asks for it, and then the lines of a forecast over `forecast_days` days.
pub fn report(now: Timestamp, show_phase: bool, forecast_days: u8) -> (lines: Vec<String>)
    ensures
        lines.deep_view() == report_text(now@, show_phase, forecast_days as nat),
{
    let mut lines: Vec<String> = Vec::new();
    if show_phase {
        lines.push(phase_line(now));
    }
    let mut rest: Vec<String> = forecast_lines(now, forecast_days);
    let ghost first = lines.deep_view();
    let ghost second = rest.deep_view();
    lines.append(&mut rest);
    assert(lines.deep_view() =~= first + second);
    lines
}

} // verus!

//! Phases of the moon, from a date to a name and a glyph.
//!
//! The age of the moon on a date is counted in whole days from the new moon
//! of the first of January 1900, less the full synodic months among them;
//! its share of the synodic month, rounded to a percentage, gives the phase.

pub mod calendar;
pub mod forecast;
pub mod moon;
pub mod phase;
pub mod report;

pub use calendar::Timestamp;
pub use forecast::{forecast, ForecastError};
pub use moon::{calc_moon_age, current_phase, known_new_moon, phase_at, MoonAge};
pub use phase::MoonPhase;
pub use report::report;

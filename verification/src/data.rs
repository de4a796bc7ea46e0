//! The value records that flow through the pipeline, and its error kinds.
//!
//! Every record is an immutable plain value: it is created once, from one
//! decoded response body, and never mutated. Temperatures and the other
//! physical measures arrive from the wire as fractional degrees and units;
//! they are held here as whole numbers, rounded to the nearest unit by the
//! decoding collaborator, which is the precision at which the report text
//! presents them.

use vstd::prelude::*;

verus! {

/// One resolved place candidate. `identifier` is the unique numeric key under
/// which the remote directory serves this place's weather.
pub struct Location {
    pub title: String,
    pub location_type: String,
    pub identifier: u32,
    /// Latitude and longitude encoded as a single "lat,long" string.
    pub coordinates: String,
}

/// One day's consolidated weather statistics.
pub struct DailyForecast {
    pub id: u64,
    pub state_name: String,
    pub state_abbr: String,
    pub wind_direction_compass: String,
    pub created: String,
    pub applicable_date: String,
    /// Degrees Celsius, rounded to the nearest whole degree.
    pub min_temp: i64,
    /// Degrees Celsius, rounded to the nearest whole degree.
    pub max_temp: i64,
    /// Degrees Celsius, rounded to the nearest whole degree.
    pub current_temp: i64,
    /// Rounded to the nearest whole unit.
    pub wind_speed: i64,
    /// Compass degrees, rounded to the nearest whole degree.
    pub wind_direction: i64,
    /// Rounded to the nearest whole unit.
    pub air_pressure: i64,
    /// Integer percent.
    pub humidity: u32,
    /// Rounded to the nearest whole unit.
    pub visibility: i64,
    /// Integer confidence score.
    pub predictability: u32,
}

/// The full weather payload for one location. `forecasts` is chronological:
/// index 0 is the most current, applicable day.
pub struct WeatherReport {
    pub forecasts: Vec<DailyForecast>,
    pub observation_time: String,
    pub sun_rise: String,
    pub sun_set: String,
    pub timezone_name: String,
    /// Offset string of the location's time zone.
    pub timezone: String,
    /// The enclosing region of the resolved location, e.g. its country.
    pub parent: Location,
    pub title: String,
    pub location_type: String,
    pub identifier: u32,
    pub coordinates: String,
}

/// A transport or wire-decoding failure during location resolution or weather
/// retrieval. It is never recovered locally: it aborts the whole run.
#[derive(Debug)]
pub struct FetchError {
    pub message: String,
}

/// A failure of report rendering.
#[derive(Debug, Clone, Copy, PartialEq, Eq, Structural)]
pub enum RenderError {
    /// The report's forecast sequence is empty, so there is no current day to
    /// describe.
    EmptyForecast,
}

/// The terminal failure of one pipeline run: either stage's error, unchanged.
#[derive(Debug)]
pub enum RunError {
    Fetch(FetchError),
    Render(RenderError),
}

} // verus!

//! The forecast records, shaped like the provider's response.
//!
//! Timestamps are unix seconds in UTC. Fractional quantities are fixed-point
//! integers: temperatures (`temp`, `feels_like`, `dew_point` and the daily
//! temperature records) in tenths of a degree, coordinates in ten-thousandths
//! of a degree, every other fractional quantity (`uvi`, `wind_speed`,
//! `wind_gust`, `pop`, `moon_phase`, `rain`) in hundredths of its unit.
//! Nothing is validated: values outside their usual range are kept as given.

use vstd::prelude::*;

verus! {

/// One weather condition: category, description and icon code.
#[derive(Debug, Clone)]
pub struct WeatherCondition {
    pub id: u64,
    pub main: String,
    pub description: String,
    pub icon: String,
}

/// Temperatures over one day.
#[derive(Debug, Clone, Copy)]
pub struct DailyTemp {
    pub day: i64,
    pub min: i64,
    pub max: i64,
    pub night: i64,
    pub eve: i64,
    pub morn: i64,
}

/// Perceived temperatures over one day.
#[derive(Debug, Clone, Copy)]
pub struct DailyFeelsLike {
    pub day: i64,
    pub night: i64,
    pub eve: i64,
    pub morn: i64,
}

/// The conditions at the time of the request.
#[derive(Debug, Clone)]
pub struct CurrentWeather {
    pub dt: u64,
    pub sunrise: u64,
    pub sunset: u64,
    pub temp: i64,
    pub feels_like: i64,
    pub pressure: u64,
    pub humidity: u64,
    pub dew_point: i64,
    pub uvi: i64,
    pub clouds: u64,
    pub visibility: u64,
    pub wind_speed: i64,
    pub wind_deg: u64,
    pub weather: Vec<WeatherCondition>,
}

/// The forecast for one hour.
#[derive(Debug, Clone)]
pub struct HourlyWeather {
    pub dt: u64,
    pub temp: i64,
    pub feels_like: i64,
    pub pressure: u64,
    pub humidity: u64,
    pub dew_point: i64,
    pub uvi: i64,
    pub clouds: u64,
    pub visibility: u64,
    pub wind_speed: i64,
    pub wind_deg: u64,
    pub wind_gust: Option<i64>,
    pub weather: Vec<WeatherCondition>,
    pub pop: i64,
}

/// The forecast for one day.
#[derive(Debug, Clone)]
pub struct DailyWeather {
    pub dt: u64,
    pub sunrise: u64,
    pub sunset: u64,
    pub moonrise: u64,
    pub moonset: u64,
    pub moon_phase: i64,
    pub summary: String,
    pub temp: DailyTemp,
    pub feels_like: DailyFeelsLike,
    pub pressure: u64,
    pub humidity: u64,
    pub dew_point: i64,
    pub wind_speed: i64,
    pub wind_deg: u64,
    pub wind_gust: Option<i64>,
    pub weather: Vec<WeatherCondition>,
    pub clouds: u64,
    pub pop: i64,
    pub rain: Option<i64>,
    pub uvi: i64,
}

/// A whole response: the place, the current conditions, and the hourly and
/// daily forecasts in chronological order.
#[derive(Debug, Clone)]
pub struct WeatherResponse {
    pub lat: i64,
    pub lon: i64,
    pub timezone: String,
    pub timezone_offset: i64,
    pub current: CurrentWeather,
    pub hourly: Vec<HourlyWeather>,
    pub daily: Vec<DailyWeather>,
}

} // verus!

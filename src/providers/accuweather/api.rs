//! The answers of AccuWeather. An instant is held as whole seconds since the epoch.

use vstd::prelude::*;

verus! {

/// One place found by the location search.
pub struct LocationSearchItem {
    pub key: String,
}

/// Current and historical weather conditions.
pub struct WeatherConditions {
    pub weather_text: String,
    pub epoch_time: i64,
}

/// One hour of a forecast.
pub struct ForecastHourly {
    pub icon_phrase: String,
    pub epoch_date_time: i64,
}

pub struct Temperature {}

} // verus!

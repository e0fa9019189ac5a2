//! The answer of the forecast endpoint.

use vstd::prelude::*;

verus! {

#[derive(Debug)]
pub struct Json {
    pub location: Location,
    pub current: Current,
    pub forecast: Forecast,
}

#[derive(Debug)]
pub struct Current {
    pub last_updated_epoch: i64,
    pub temp_c: String,
    pub temp_f: String,
    pub wind_kph: String,
    pub wind_mph: String,
    pub wind_dir: String,
    pub humidity: usize,
    pub condition: Condition,
}

#[derive(Debug)]
pub struct Condition {
    pub text: String,
}

#[derive(Debug)]
pub struct Forecast {
    pub forecastday: Vec<ForecastDay>,
}

#[derive(Debug)]
pub struct ForecastDay {
    pub date_epoch: i64,
    pub day: Day,
}

#[derive(Debug)]
pub struct Location {
    pub name: String,
}

#[derive(Debug)]
pub struct Day {
    pub maxtemp_f: String,
    pub mintemp_f: String,
    pub maxtemp_c: String,
    pub mintemp_c: String,
    pub maxwind_mph: String,
    pub maxwind_kph: String,
    pub avghumidity: String,
    pub condition: Condition,
}

} // verus!

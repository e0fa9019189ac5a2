//! The answer of the conditions summary endpoint: one summary per day.

use vstd::prelude::*;

verus! {

pub struct Periods {
    pub timestamp: i64,
    pub wind_speed: WindSpeed,
    pub humidity: Humidity,
    pub pressure: Pressure,
    pub temp: Temp,
    pub weather: Weather,
}

pub struct Weather {
    pub phrase: String,
    pub primary: String,
}

pub struct Humidity {
    pub max: String,
    pub min: String,
    pub avg: String,
}

pub struct WindSpeed {
    pub max_dir: String,
    pub min_dir: String,
}

pub struct Pressure {
    pub max_m_b: String,
    pub min_m_b: String,
    pub avg_m_b: String,
    pub max_i_n: String,
    pub min_i_n: String,
    pub avg_i_n: String,
}

pub struct Temp {
    pub avg_c: String,
    pub avg_f: String,
    pub min_c: String,
    pub min_f: String,
    pub max_c: String,
    pub max_f: String,
}

/// The root of the answer.
pub struct Json {
    pub success: bool,
    pub response: Vec<Response>,
}

pub struct Response {
    pub periods: Vec<Periods>,
}

} // verus!

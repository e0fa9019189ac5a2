//! The answer of the history endpoint.

use vstd::prelude::*;

verus! {

#[derive(Debug)]
pub struct Forecast {
    pub forecastday: Vec<ForecastDay>,
}

#[derive(Debug)]
pub struct ForecastDay {
    pub date_epoch: i64,
    pub day: Day,
}

#[derive(Debug)]
pub struct Day {
    pub mintemp_c: String,
    pub maxtemp_c: String,
    pub mintemp_f: String,
    pub maxtemp_f: String,
    pub avghumidity: String,
    pub condition: Condition,
}

#[derive(Debug)]
pub struct Condition {
    pub text: String,
}

#[derive(Debug)]
pub struct Json {
    pub location: Location,
    pub forecast: Forecast,
}

#[derive(Debug)]
pub struct Location {
    pub name: String,
}

} // verus!

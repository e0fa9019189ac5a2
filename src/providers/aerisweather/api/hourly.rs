//! The answer of the conditions endpoint: current and hourly conditions.

use vstd::prelude::*;

verus! {

/// The root of the answer.
pub struct Json {
    pub success: bool,
    pub response: Vec<Response>,
}

pub struct Periods {
    pub timestamp: i64,
    pub temp_c: String,
    pub temp_f: String,
    pub wind_dir: String,
    pub weather: String,
    pub humidity: usize,
}

pub struct Response {
    pub periods: Vec<Periods>,
}

} // verus!

//! The answer of the current-conditions endpoint.

use vstd::prelude::*;

verus! {

#[derive(Debug)]
pub struct Json {
    pub location: Location,
    pub current: Current,
}

#[derive(Debug)]
pub struct Current {
    pub last_updated_epoch: i64,
    pub temp_c: String,
    pub temp_f: String,
    pub wind_kph: String,
    pub wind_mph: String,
    pub wind_dir: String,
    pub humidity: usize,
    pub condition: Condition,
}

#[derive(Debug)]
pub struct Condition {
    pub text: String,
}

#[derive(Debug)]
pub struct Location {
    pub name: String,
}

} // verus!

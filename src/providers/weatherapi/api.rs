//! The answers of WeatherAPI, one module per endpoint. A decimal reading is held as the text
//! that Rust's `Display` gives the number (`7.5`, or `17` for 17.0); an instant as whole
//! seconds since the Unix epoch.

pub mod current;
pub mod forecast;
pub mod history;

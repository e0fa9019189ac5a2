//! The answers of AerisWeather, one module per endpoint. A decimal reading is held as the
//! text that Rust's `Display` gives the number; an instant as whole seconds since the epoch.

pub mod daily;
pub mod hourly;

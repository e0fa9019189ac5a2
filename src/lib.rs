//! Weather lookups across several providers: a provider-agnostic time offset, the request
//! that each provider is asked, the reports built from their answers, and their text form.

pub mod args;
pub mod command;
pub mod configuration;
pub mod providers;
pub mod report;
pub mod text;
pub mod time;
pub mod types;
pub mod util;

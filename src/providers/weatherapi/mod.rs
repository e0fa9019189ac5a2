//! The WeatherAPI adapter: which endpoint a command needs, and with which parameters.

use crate::command::{DateOffsetRepresentation, WeatherCommand};
use crate::providers::{result_view, HttpGet, ProviderError};
use crate::text::{decimal, isize_text, joined, pair, pairs_view};
use crate::time::{format_utc, is_on_calendar, on_calendar, utc_text, Timestamp};
use vstd::prelude::*;

pub mod api;
pub mod report;

verus! {

/// The WeatherAPI REST API adapter: where the API is, and the key it is called with.
pub struct WeatherAPIProvider {
    base_url: String,
    api_key: String,
}

/// The endpoints of WeatherAPI.
#[derive(Clone, Copy, Debug, PartialEq, Eq, Structural)]
pub enum WeatherApiBranch {
    Current,
    Forecast,
    History,
}

/// A request to WeatherAPI, and the endpoint whose answer it brings.
#[derive(Debug)]
pub struct WeatherApiRequest {
    pub branch: WeatherApiBranch,
    pub request: HttpGet,
}

impl View for WeatherApiRequest {
    type V = (WeatherApiBranch, (Seq<char>, Seq<(Seq<char>, Seq<char>)>));

    open spec fn view(&self) -> (WeatherApiBranch, (Seq<char>, Seq<(Seq<char>, Seq<char>)>)) {
        (self.branch, self.request@)
    }
}

pub open spec fn current_query(key: Seq<char>, location: Seq<char>) -> Seq<(Seq<char>, Seq<char>)> {
    seq![("key"@, key), ("q"@, location), ("aqi"@, "no"@)]
}

pub open spec fn forecast_query(key: Seq<char>, location: Seq<char>, days: int) -> Seq<
    (Seq<char>, Seq<char>),
> {
    seq![
        ("key"@, key),
        ("q"@, location),
        ("aqi"@, "no"@),
        ("alerts"@, "no"@),
        ("days"@, decimal(days)),
    ]
}

pub open spec fn history_query(key: Seq<char>, location: Seq<char>, dt: Seq<char>) -> Seq<
    (Seq<char>, Seq<char>),
> {
    seq![("key"@, key), ("q"@, location), ("aqi"@, "no"@), ("alerts"@, "no"@), ("dt"@, dt)]
}

impl WeatherAPIProvider {
    pub closed spec fn base(&self) -> Seq<char> {
        self.base_url@
    }

    pub closed spec fn key(&self) -> Seq<char> {
        self.api_key@
    }

    /// The same adapter, calling the API at another address (a test double, say).
    pub fn with_base_url(self, base_url: String) -> (r: Self)
        ensures
            r.base() == base_url@,
            r.key() == self.key(),
    {
        WeatherAPIProvider { base_url, ..self }
    }

    /// The same adapter, calling the API with this key.
    pub fn with_api_key(self, api_key: String) -> (r: Self)
        ensures
            r.base() == self.base(),
            r.key() == api_key@,
    {
        WeatherAPIProvider { api_key, ..self }
    }

    /// The request, and the endpoint it goes to, for `command` when the time is `now`.
    /// Now asks for the current conditions; a day offset after now for a forecast of that
    /// many days; a day offset before now (or of zero) for the history of the day it leads to,
    /// written `YYYY-MM-DD` in UTC. Hour offsets have no endpoint.
    pub open spec fn planned(&self, command: WeatherCommand, now: Timestamp) -> Result<
        (WeatherApiBranch, (Seq<char>, Seq<(Seq<char>, Seq<char>)>)),
        ProviderError,
    > {
        let location = command.location@;
        match command.date {
            DateOffsetRepresentation::Now => Ok(
                (
                    WeatherApiBranch::Current,
                    (self.base() + "/v1/current.json"@, current_query(self.key(), location)),
                ),
            ),
            DateOffsetRepresentation::DayOffset(d) => {
                if d > 0 {
                    Ok(
                        (
                            WeatherApiBranch::Forecast,
                            (
                                self.base() + "/v1/forecast.json"@,
                                forecast_query(self.key(), location, d as int),
                            ),
                        ),
                    )
                } else if command.date.resolves_from(now) && on_calendar(
                    command.date.resolve(now).epoch_secs as int,
                ) {
                    Ok(
                        (
                            WeatherApiBranch::History,
                            (
                                self.base() + "/v1/history.json"@,
                                history_query(
                                    self.key(),
                                    location,
                                    utc_text(
                                        command.date.resolve(now).epoch_secs as int,
                                        "%Y-%m-%d"@,
                                    ),
                                ),
                            ),
                        ),
                    )
                } else {
                    Err(ProviderError::DateOutOfRange)
                }
            },
            DateOffsetRepresentation::HourOffset(_) => Err(ProviderError::HourlyNotSupported),
        }
    }

    fn url_current(&self) -> (r: String)
        ensures
            r@ == self.base() + "/v1/current.json"@,
    {
        joined(self.base_url.as_str(), "/v1/current.json")
    }

    fn url_history(&self) -> (r: String)
        ensures
            r@ == self.base() + "/v1/history.json"@,
    {
        joined(self.base_url.as_str(), "/v1/history.json")
    }

    fn url_forecast(&self) -> (r: String)
        ensures
            r@ == self.base() + "/v1/forecast.json"@,
    {
        joined(self.base_url.as_str(), "/v1/forecast.json")
    }

    fn request_current(&self, location: &String) -> (r: HttpGet)
        ensures
            r@ == (self.base() + "/v1/current.json"@, current_query(self.key(), location@)),
    {
        let mut query: Vec<(String, String)> = Vec::new();
        query.push(pair("key", self.api_key.as_str()));
        query.push(pair("q", location.as_str()));
        query.push(pair("aqi", "no"));
        assert(pairs_view(query@) =~= current_query(self.key(), location@));
        HttpGet { url: self.url_current(), query }
    }

    fn request_forecast(&self, location: &String, days: isize) -> (r: HttpGet)
        ensures
            r@ == (
                self.base() + "/v1/forecast.json"@,
                forecast_query(self.key(), location@, days as int),
            ),
    {
        let mut query: Vec<(String, String)> = Vec::new();
        query.push(pair("key", self.api_key.as_str()));
        query.push(pair("q", location.as_str()));
        query.push(pair("aqi", "no"));
        query.push(pair("alerts", "no"));
        let days_text = isize_text(days);
        query.push(pair("days", days_text.as_str()));
        assert(pairs_view(query@) =~= forecast_query(self.key(), location@, days as int));
        HttpGet { url: self.url_forecast(), query }
    }

    fn request_history(&self, location: &String, dt: &String) -> (r: HttpGet)
        ensures
            r@ == (self.base() + "/v1/history.json"@, history_query(self.key(), location@, dt@)),
    {
        let mut query: Vec<(String, String)> = Vec::new();
        query.push(pair("key", self.api_key.as_str()));
        query.push(pair("q", location.as_str()));
        query.push(pair("aqi", "no"));
        query.push(pair("alerts", "no"));
        query.push(pair("dt", dt.as_str()));
        assert(pairs_view(query@) =~= history_query(self.key(), location@, dt@));
        HttpGet { url: self.url_history(), query }
    }

    /// The request that answers `command` when the time is `now`: see `planned`.
    pub fn plan(&self, command: &WeatherCommand, now: Timestamp) -> (r: Result<
        WeatherApiRequest,
        ProviderError,
    >)
        ensures
            result_view(r) == self.planned(*command, now),
    {
        match command.date {
            DateOffsetRepresentation::Now => Ok(
                WeatherApiRequest {
                    branch: WeatherApiBranch::Current,
                    request: self.request_current(&command.location),
                },
            ),
            DateOffsetRepresentation::DayOffset(days) => {
                if days > 0 {
                    Ok(
                        WeatherApiRequest {
                            branch: WeatherApiBranch::Forecast,
                            request: self.request_forecast(&command.location, days),
                        },
                    )
                } else {
                    if !command.date.resolvable_from(&now) {
                        return Err(ProviderError::DateOutOfRange);
                    }
                    let when = command.date.to_chrono(now);
                    if !is_on_calendar(when.epoch_secs) {
                        return Err(ProviderError::DateOutOfRange);
                    }
                    let dt = format_utc(when.epoch_secs, "%Y-%m-%d");
                    Ok(
                        WeatherApiRequest {
                            branch: WeatherApiBranch::History,
                            request: self.request_history(&command.location, &dt),
                        },
                    )
                }
            },
            DateOffsetRepresentation::HourOffset(_) => Err(ProviderError::HourlyNotSupported),
        }
    }
}

impl Default for WeatherAPIProvider {
    /// The adapter for the public API, with no key yet.
    fn default() -> (r: Self)
        ensures
            r.base() == "https://api.weatherapi.com"@,
            r.key() == ""@,
    {
        WeatherAPIProvider {
            base_url: "https://api.weatherapi.com".to_owned(),
            api_key: "".to_owned(),
        }
    }
}

} // verus!

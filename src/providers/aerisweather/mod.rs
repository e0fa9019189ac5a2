//! The AerisWeather adapter: which endpoint a command needs, with which parameters, and the
//! title of the report built from the answer.

use crate::command::{DateOffsetRepresentation, WeatherCommand};
use crate::providers::{HttpGet, ProviderError};
use crate::text::{decimal, isize_text, joined, joined3, pair, pairs_view};
use crate::time::{format_utc, is_on_calendar, on_calendar, utc_text, Timestamp};
use vstd::prelude::*;

pub mod api;
pub mod report;

verus! {

/// The AerisWeather REST API adapter: where the API is, and the client credentials.
pub struct AerisWeatherProvider {
    base_url: String,
    client_id: String,
    client_secret: String,
}

/// The endpoints of AerisWeather: the answer of each has its own shape.
#[derive(Clone, Copy, Debug, PartialEq, Eq, Structural)]
pub enum AerisBranch {
    /// Conditions now or at an hour offset.
    Hourly,
    /// The summary of a day.
    Daily,
}

/// A request to AerisWeather, the endpoint it goes to, and the title of its report.
#[derive(Debug)]
pub struct AerisRequest {
    pub title: String,
    pub branch: AerisBranch,
    pub request: HttpGet,
}

pub type AerisRequestView = (Seq<char>, AerisBranch, (Seq<char>, Seq<(Seq<char>, Seq<char>)>));

impl View for AerisRequest {
    type V = AerisRequestView;

    open spec fn view(&self) -> AerisRequestView {
        (self.title@, self.branch, self.request@)
    }
}

/// The hourly selector: `+{h}hours` after now, `{h}hours` before (the minus sign is the
/// number's own).
pub open spec fn hour_selector(h: int) -> Seq<char> {
    if h > 0 {
        seq!['+'] + decimal(h) + "hours"@
    } else {
        decimal(h) + "hours"@
    }
}

pub open spec fn hourly_query(id: Seq<char>, secret: Seq<char>, selector: Seq<char>) -> Seq<
    (Seq<char>, Seq<char>),
> {
    seq![
        ("client_id"@, id),
        ("client_secret"@, secret),
        ("plimit"@, "1"@),
        ("format"@, "json"@),
        ("filter"@, "1min"@),
        ("for"@, selector),
    ]
}

pub open spec fn daily_query(id: Seq<char>, secret: Seq<char>, selector: Seq<char>) -> Seq<
    (Seq<char>, Seq<char>),
> {
    seq![("client_id"@, id), ("client_secret"@, secret), ("format"@, "json"@), ("for"@, selector)]
}

/// The selector of an hour offset.
pub fn hour_offset_text(hours: isize) -> (r: String)
    ensures
        r@ == hour_selector(hours as int),
{
    let number = isize_text(hours);
    if hours > 0 {
        proof {
            reveal_strlit("+");
        }
        joined3("+", number.as_str(), "hours")
    } else {
        joined(number.as_str(), "hours")
    }
}

impl AerisWeatherProvider {
    pub closed spec fn base(&self) -> Seq<char> {
        self.base_url@
    }

    pub closed spec fn id(&self) -> Seq<char> {
        self.client_id@
    }

    pub closed spec fn secret(&self) -> Seq<char> {
        self.client_secret@
    }

    /// The adapter for the public API, with no credentials yet.
    pub fn new() -> (r: Self)
        ensures
            r.base() == "https://api.aerisapi.com/"@,
            r.id() == ""@,
            r.secret() == ""@,
    {
        AerisWeatherProvider {
            base_url: "https://api.aerisapi.com/".to_owned(),
            client_id: "".to_owned(),
            client_secret: "".to_owned(),
        }
    }

    /// The same adapter, calling the API at another address (a test double, say).
    pub fn with_base_url(self, base_url: String) -> (r: Self)
        ensures
            r.base() == base_url@,
            r.id() == self.id(),
            r.secret() == self.secret(),
    {
        AerisWeatherProvider { base_url, ..self }
    }

    /// The same adapter, calling the API with these credentials.
    pub fn with_credentials(self, client_id: String, client_secret: String) -> (r: Self)
        ensures
            r.base() == self.base(),
            r.id() == client_id@,
            r.secret() == client_secret@,
    {
        AerisWeatherProvider { client_id, client_secret, ..self }
    }

    pub open spec fn hourly_url(&self, location: Seq<char>) -> Seq<char> {
        self.base() + "/conditions/"@ + location
    }

    pub open spec fn daily_url(&self, location: Seq<char>) -> Seq<char> {
        self.base() + "/conditions/summary/"@ + location
    }

    /// The current conditions: asked of the hourly endpoint for now.
    pub open spec fn current_planned(&self, location: Seq<char>) -> AerisRequestView {
        (
            "AerisWeather - current"@,
            AerisBranch::Hourly,
            (self.hourly_url(location), hourly_query(self.id(), self.secret(), "now"@)),
        )
    }

    /// The request, endpoint and report title for `command` when the time is `now`.
    /// Now, and a zero offset, ask for the current conditions; a day offset for the summary
    /// of the day it leads to, written `YYYY/MM/DD` in UTC; an hour offset for the conditions
    /// that many hours away. Offsets after now are titled forecasts, those before histories.
    pub open spec fn planned(&self, command: WeatherCommand, now: Timestamp) -> Result<
        AerisRequestView,
        ProviderError,
    > {
        let location = command.location@;
        match command.date {
            DateOffsetRepresentation::Now => Ok(self.current_planned(location)),
            DateOffsetRepresentation::DayOffset(d) => {
                if d == 0 {
                    Ok(self.current_planned(location))
                } else if command.date.resolves_from(now) && on_calendar(
                    command.date.resolve(now).epoch_secs as int,
                ) {
                    Ok(
                        (
                            if d > 0 {
                                "AerisWeather - forecast(daily)"@
                            } else {
                                "AerisWeather - history(daily)"@
                            },
                            AerisBranch::Daily,
                            (
                                self.daily_url(location),
                                daily_query(
                                    self.id(),
                                    self.secret(),
                                    utc_text(
                                        command.date.resolve(now).epoch_secs as int,
                                        "%Y/%m/%d"@,
                                    ),
                                ),
                            ),
                        ),
                    )
                } else {
                    Err(ProviderError::DateOutOfRange)
                }
            },
            DateOffsetRepresentation::HourOffset(h) => {
                if h == 0 {
                    Ok(self.current_planned(location))
                } else {
                    Ok(
                        (
                            if h > 0 {
                                "AerisWeather - forecast(hourly)"@
                            } else {
                                "AerisWeather - history(hourly)"@
                            },
                            AerisBranch::Hourly,
                            (
                                self.hourly_url(location),
                                hourly_query(self.id(), self.secret(), hour_selector(h as int)),
                            ),
                        ),
                    )
                }
            },
        }
    }

    fn url_daily(&self, location: &str) -> (r: String)
        ensures
            r@ == self.daily_url(location@),
    {
        joined3(self.base_url.as_str(), "/conditions/summary/", location)
    }

    fn url_hourly(&self, location: &str) -> (r: String)
        ensures
            r@ == self.hourly_url(location@),
    {
        joined3(self.base_url.as_str(), "/conditions/", location)
    }

    fn request_hourly(&self, location: &str, for_param: &str) -> (r: HttpGet)
        ensures
            r@ == (self.hourly_url(location@), hourly_query(self.id(), self.secret(), for_param@)),
    {
        let mut query: Vec<(String, String)> = Vec::new();
        query.push(pair("client_id", self.client_id.as_str()));
        query.push(pair("client_secret", self.client_secret.as_str()));
        query.push(pair("plimit", "1"));
        query.push(pair("format", "json"));
        query.push(pair("filter", "1min"));
        query.push(pair("for", for_param));
        assert(pairs_view(query@) =~= hourly_query(self.id(), self.secret(), for_param@));
        HttpGet { url: self.url_hourly(location), query }
    }

    fn request_daily(&self, location: &str, for_param: &str) -> (r: HttpGet)
        ensures
            r@ == (self.daily_url(location@), daily_query(self.id(), self.secret(), for_param@)),
    {
        let mut query: Vec<(String, String)> = Vec::new();
        query.push(pair("client_id", self.client_id.as_str()));
        query.push(pair("client_secret", self.client_secret.as_str()));
        query.push(pair("format", "json"));
        query.push(pair("for", for_param));
        assert(pairs_view(query@) =~= daily_query(self.id(), self.secret(), for_param@));
        HttpGet { url: self.url_daily(location), query }
    }

    fn branch_current(&self, location: &str) -> (r: AerisRequest)
        ensures
            r@ == self.current_planned(location@),
    {
        AerisRequest {
            title: "AerisWeather - current".to_owned(),
            branch: AerisBranch::Hourly,
            request: self.request_hourly(location, "now"),
        }
    }

    fn branch_hourly(&self, location: &str, hours: isize) -> (r: AerisRequest)
        requires
            hours != 0,
        ensures
            r@ == (
                if hours > 0 {
                    "AerisWeather - forecast(hourly)"@
                } else {
                    "AerisWeather - history(hourly)"@
                },
                AerisBranch::Hourly,
                (
                    self.hourly_url(location@),
                    hourly_query(self.id(), self.secret(), hour_selector(hours as int)),
                ),
            ),
    {
        let title = if hours > 0 {
            "AerisWeather - forecast(hourly)".to_owned()
        } else {
            "AerisWeather - history(hourly)".to_owned()
        };
        let selector = hour_offset_text(hours);
        AerisRequest {
            title,
            branch: AerisBranch::Hourly,
            request: self.request_hourly(location, selector.as_str()),
        }
    }

    /// The request that answers `command` when the time is `now`: see `planned`.
    pub fn plan(&self, command: &WeatherCommand, now: Timestamp) -> (r: Result<
        AerisRequest,
        ProviderError,
    >)
        ensures
            crate::providers::result_view(r) == self.planned(*command, now),
    {
        let location = command.location.as_str();
        match command.date {
            DateOffsetRepresentation::DayOffset(days) => {
                if days == 0 {
                    return Ok(self.branch_current(location));
                }
                if !command.date.resolvable_from(&now) {
                    return Err(ProviderError::DateOutOfRange);
                }
                let when = command.date.to_chrono(now);
                if !is_on_calendar(when.epoch_secs) {
                    return Err(ProviderError::DateOutOfRange);
                }
                let day = format_utc(when.epoch_secs, "%Y/%m/%d");
                let title = if days > 0 {
                    "AerisWeather - forecast(daily)".to_owned()
                } else {
                    "AerisWeather - history(daily)".to_owned()
                };
                Ok(
                    AerisRequest {
                        title,
                        branch: AerisBranch::Daily,
                        request: self.request_daily(location, day.as_str()),
                    },
                )
            },
            DateOffsetRepresentation::HourOffset(hours) => {
                if hours == 0 {
                    Ok(self.branch_current(location))
                } else {
                    Ok(self.branch_hourly(location, hours))
                }
            },
            DateOffsetRepresentation::Now => Ok(self.branch_current(location)),
        }
    }
}

impl Default for AerisWeatherProvider {
    fn default() -> (r: Self)
        ensures
            r.base() == "https://api.aerisapi.com/"@,
            r.id() == ""@,
            r.secret() == ""@,
    {
        Self::new()
    }
}

} // verus!

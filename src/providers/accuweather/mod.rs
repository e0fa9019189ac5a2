//! The AccuWeather adapter. Its lookup takes two steps: a search turns the location's name
//! into a location key, then the conditions are asked for by that key. Only the requests of
//! both steps stand here; the report of the second step is not written yet.

use crate::command::WeatherCommand;
use crate::providers::HttpGet;
use crate::text::{joined, pair, pairs_view};
use vstd::prelude::*;

pub mod api;

verus! {

/// The AccuWeather REST API adapter: where the API is, and the key it is called with.
pub struct AccuWeatherProvider {
    base_url: String,
    api_key: String,
}

impl AccuWeatherProvider {
    pub closed spec fn base(&self) -> Seq<char> {
        self.base_url@
    }

    pub closed spec fn key(&self) -> Seq<char> {
        self.api_key@
    }

    /// The adapter for the public API, with no key yet.
    pub fn new() -> (r: Self)
        ensures
            r.base() == "http://dataservice.accuweather.com/"@,
            r.key() == ""@,
    {
        AccuWeatherProvider {
            base_url: "http://dataservice.accuweather.com/".to_owned(),
            api_key: "".to_owned(),
        }
    }

    /// The same adapter, calling the API at another address (a test double, say).
    pub fn with_base_url(self, base_url: String) -> (r: Self)
        ensures
            r.base() == base_url@,
            r.key() == self.key(),
    {
        AccuWeatherProvider { base_url, ..self }
    }

    /// The same adapter, calling the API with this key.
    pub fn with_api_key(self, api_key: String) -> (r: Self)
        ensures
            r.base() == self.base(),
            r.key() == api_key@,
    {
        AccuWeatherProvider { api_key, ..self }
    }

    /// The URL of the location search.
    pub fn url_location_api(&self) -> (r: String)
        ensures
            r@ == self.base() + "/locations/v1/search"@,
    {
        joined(self.base_url.as_str(), "/locations/v1/search")
    }

    /// The URL of the current conditions at the location with key `location`.
    pub fn url_current_weather(&self, location: &str) -> (r: String)
        ensures
            r@ == self.base() + "/currentconditions/v1/"@ + location@,
    {
        crate::text::joined3(self.base_url.as_str(), "/currentconditions/v1/", location)
    }

    /// The first step of a lookup: search the location of `command` by name.
    pub fn request_location_search(&self, command: &WeatherCommand) -> (r: HttpGet)
        ensures
            r@ == (
                self.base() + "/locations/v1/search"@,
                seq![("apikey"@, self.key()), ("q"@, command.location@)],
            ),
    {
        let mut query: Vec<(String, String)> = Vec::new();
        query.push(pair("apikey", self.api_key.as_str()));
        query.push(pair("q", command.location.as_str()));
        assert(pairs_view(query@) =~= seq![("apikey"@, self.key()), ("q"@, command.location@)]);
        HttpGet { url: self.url_location_api(), query }
    }

    /// The second step of a lookup: the current conditions at the location with key
    /// `location`.
    pub fn request_current_weather_conditions(&self, location: &str) -> (r: HttpGet)
        ensures
            r@ == (
                self.base() + "/currentconditions/v1/"@ + location@,
                seq![("apikey"@, self.key())],
            ),
    {
        let mut query: Vec<(String, String)> = Vec::new();
        query.push(pair("apikey", self.api_key.as_str()));
        assert(pairs_view(query@) =~= seq![("apikey"@, self.key())]);
        HttpGet { url: self.url_current_weather(location), query }
    }
}

/// The key of the first place that the location search found, if it found any.
pub fn first_location_key(items: &Vec<api::LocationSearchItem>) -> (r: Option<String>)
    ensures
        items@.len() == 0 ==> r is None,
        items@.len() > 0 ==> r is Some && r->0@ == items@[0].key@,
{
    if items.len() == 0 {
        None
    } else {
        Some(items[0].key.clone())
    }
}

impl Default for AccuWeatherProvider {
    fn default() -> (r: Self)
        ensures
            r.base() == "http://dataservice.accuweather.com/"@,
            r.key() == ""@,
    {
        Self::new()
    }
}

} // verus!

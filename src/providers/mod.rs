//! The weather providers: for each, the request that a command asks for and the report built
//! from its answer. Sending the requests and decoding the answers is left to the caller.

use crate::text::pairs_view;
use vstd::prelude::*;

pub mod accuweather;
pub mod aerisweather;
pub mod weatherapi;

verus! {

/// An HTTP GET request: the URL without its query, and the query parameters in order.
#[derive(Debug)]
pub struct HttpGet {
    pub url: String,
    pub query: Vec<(String, String)>,
}

impl View for HttpGet {
    type V = (Seq<char>, Seq<(Seq<char>, Seq<char>)>);

    open spec fn view(&self) -> (Seq<char>, Seq<(Seq<char>, Seq<char>)>) {
        (self.url@, pairs_view(self.query@))
    }
}

/// Why a provider cannot answer a command.
#[derive(Clone, Copy, Debug, PartialEq, Eq, Structural)]
pub enum ProviderError {
    /// The provider has no hourly offsets.
    HourlyNotSupported,
    /// The offset leads to an instant outside the calendar.
    DateOutOfRange,
    /// The provider's lookup is not complete yet.
    NotImplemented,
}

impl ProviderError {
    pub fn message(&self) -> (r: &'static str) {
        match self {
            ProviderError::HourlyNotSupported => "Hourly offsets are not supported yet",
            ProviderError::DateOutOfRange => "The requested date is out of range",
            ProviderError::NotImplemented => "This provider's lookup is not implemented yet",
        }
    }
}

/// A result with the view of its success value.
pub open spec fn result_view<T: View>(r: Result<T, ProviderError>) -> Result<T::V, ProviderError> {
    match r {
        Ok(t) => Ok(t@),
        Err(e) => Err(e),
    }
}

} // verus!

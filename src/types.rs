//! The weather providers that this library knows.

use vstd::prelude::*;

verus! {

/// The supported weather providers.
#[derive(Clone, Copy, Debug, PartialEq, Eq, Structural)]
pub enum AvailableProviders {
    AccuWeather,
    WeatherAPI,
    AerisWeather,
}

impl AvailableProviders {
    /// The provider named by `provider_str`, as typed in the interactive part of the program.
    pub fn from_string(provider_str: &str) -> (r: Option<AvailableProviders>)
        ensures
            r == (if provider_str@ == "AccuWeather"@ {
                Some(AvailableProviders::AccuWeather)
            } else {
                None
            }),
    {
        if str_equal(provider_str, "AccuWeather") {
            Some(AvailableProviders::AccuWeather)
        } else {
            None
        }
    }
}

/// Whether two strings hold the same characters.
pub fn str_equal(a: &str, b: &str) -> (r: bool)
    ensures
        r == (a@ == b@),
{
    let n = a.unicode_len();
    if n != b.unicode_len() {
        return false;
    }
    let mut i: usize = 0;
    while i < n
        invariant
            n == a@.len() == b@.len(),
            i <= n,
            forall|j: int| 0 <= j < i ==> a@[j] == b@[j],
        decreases n - i,
    {
        if a.get_char(i) != b.get_char(i) {
            return false;
        }
        i = i + 1;
    }
    assert(a@ =~= b@);
    true
}

} // verus!

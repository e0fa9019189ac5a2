//! The stored configuration: the default provider and each provider's credentials, and the
//! decisions taken from it. Reading and writing the file is left to the caller.

use crate::providers::aerisweather::AerisWeatherProvider;
use crate::providers::weatherapi::WeatherAPIProvider;
use crate::types::AvailableProviders;
use std::path::PathBuf;
use vstd::prelude::*;

verus! {

/// Application configuration.
pub struct Configuration {
    /// Where the configuration is to be written; `None` for the usual place.
    pub config_path: Option<PathBuf>,
    pub default_provider: Option<AvailableProviders>,
    pub weatherapi_api_key: Option<String>,
    pub aerisweather_client_id: Option<String>,
    pub aerisweather_client_secret: Option<String>,
}

/// A provider adapter ready to run, with its credentials.
pub enum SelectedProvider {
    WeatherAPI(WeatherAPIProvider),
    AerisWeather(AerisWeatherProvider),
}

/// Why the configuration cannot answer a lookup.
#[derive(Clone, Copy, Debug, PartialEq, Eq, Structural)]
pub enum ConfigError {
    NoDefaultProvider,
    MissingWeatherApiKey,
    MissingAerisClientId,
    MissingAerisClientSecret,
    /// AccuWeather takes no credentials yet, and its lookup is not complete.
    ProviderUnavailable,
}

impl ConfigError {
    /// What the user is told, with what to do about it.
    pub fn message(&self) -> &'static str {
        match self {
            ConfigError::NoDefaultProvider => "You haven't selected a default provider yet, please run >weather configure <provider> first",
            ConfigError::MissingWeatherApiKey => "You haven't set WeatherAPI API key",
            ConfigError::MissingAerisClientId => "You haven't set AerisWeather client id",
            ConfigError::MissingAerisClientSecret => "You haven't set AerisWeather client secret",
            ConfigError::ProviderUnavailable => "AccuWeather lookups are not available yet, please choose another default provider",
        }
    }
}

/// The questions asked to configure a provider, in the order in which they are asked.
pub open spec fn prompts_of(provider: AvailableProviders) -> Seq<Seq<char>> {
    match provider {
        AvailableProviders::WeatherAPI => seq!["Please enter an API key for WeatherAPI"@],
        AvailableProviders::AerisWeather => seq![
            "Please enter a client id for AerisWeather"@,
            "Please enter a client secret for AerisWeather"@,
        ],
        AvailableProviders::AccuWeather => Seq::empty(),
    }
}

/// The questions asked to configure `provider`, in order.
pub fn credential_prompts(provider: AvailableProviders) -> (r: Vec<String>)
    ensures
        r@.map_values(|s: String| s@) == prompts_of(provider),
{
    let mut prompts: Vec<String> = Vec::new();
    match provider {
        AvailableProviders::WeatherAPI => {
            prompts.push("Please enter an API key for WeatherAPI".to_owned());
        },
        AvailableProviders::AerisWeather => {
            prompts.push("Please enter a client id for AerisWeather".to_owned());
            prompts.push("Please enter a client secret for AerisWeather".to_owned());
        },
        AvailableProviders::AccuWeather => {},
    }
    assert(prompts@.map_values(|s: String| s@) =~= prompts_of(provider));
    prompts
}

impl Configuration {
    pub fn set_weatherapi_api_key(&mut self, api_key_opt: Option<String>)
        ensures
            final(self).weatherapi_api_key == api_key_opt,
            final(self).default_provider == old(self).default_provider,
            final(self).aerisweather_client_id == old(self).aerisweather_client_id,
            final(self).aerisweather_client_secret == old(self).aerisweather_client_secret,
            final(self).config_path == old(self).config_path,
    {
        self.weatherapi_api_key = api_key_opt;
    }

    pub fn set_aerisweather_client_secret(
        &mut self,
        client_id_opt: Option<String>,
        client_secret_opt: Option<String>,
    )
        ensures
            final(self).aerisweather_client_id == client_id_opt,
            final(self).aerisweather_client_secret == client_secret_opt,
            final(self).default_provider == old(self).default_provider,
            final(self).weatherapi_api_key == old(self).weatherapi_api_key,
            final(self).config_path == old(self).config_path,
    {
        self.aerisweather_client_id = client_id_opt;
        self.aerisweather_client_secret = client_secret_opt;
    }

    pub fn set_default_provider(&mut self, provider_opt: Option<AvailableProviders>)
        ensures
            final(self).default_provider == provider_opt,
            final(self).weatherapi_api_key == old(self).weatherapi_api_key,
            final(self).aerisweather_client_id == old(self).aerisweather_client_id,
            final(self).aerisweather_client_secret == old(self).aerisweather_client_secret,
            final(self).config_path == old(self).config_path,
    {
        self.default_provider = provider_opt;
    }

    /// The same configuration, to be written to `path_opt` (`None`: the usual place).
    pub fn with_config_path(self, path_opt: Option<PathBuf>) -> (r: Self)
        ensures
            r.config_path == path_opt,
            r.default_provider == self.default_provider,
            r.weatherapi_api_key == self.weatherapi_api_key,
            r.aerisweather_client_id == self.aerisweather_client_id,
            r.aerisweather_client_secret == self.aerisweather_client_secret,
    {
        Configuration { config_path: path_opt, ..self }
    }

    /// Stores the answers to `credential_prompts(provider)`, given in the same order.
    pub fn store_credentials(&mut self, provider: AvailableProviders, answers: &Vec<String>)
        requires
            answers@.len() == prompts_of(provider).len(),
        ensures
            final(self).default_provider == old(self).default_provider,
            final(self).config_path == old(self).config_path,
            provider == AvailableProviders::WeatherAPI ==> final(self).weatherapi_api_key == Some(
                answers@[0],
            ),
            provider != AvailableProviders::WeatherAPI ==> final(self).weatherapi_api_key == old(
                self,
            ).weatherapi_api_key,
            provider == AvailableProviders::AerisWeather ==> final(self).aerisweather_client_id
                == Some(answers@[0]) && final(self).aerisweather_client_secret == Some(answers@[1]),
            provider != AvailableProviders::AerisWeather ==> final(self).aerisweather_client_id
                == old(self).aerisweather_client_id && final(self).aerisweather_client_secret
                == old(self).aerisweather_client_secret,
    {
        match provider {
            AvailableProviders::WeatherAPI => {
                self.set_weatherapi_api_key(Some(answers[0].clone()));
            },
            AvailableProviders::AerisWeather => {
                self.set_aerisweather_client_secret(
                    Some(answers[0].clone()),
                    Some(answers[1].clone()),
                );
            },
            AvailableProviders::AccuWeather => {},
        }
    }

    /// The adapter of the default provider, with the stored credentials, or why there is none.
    pub fn selected_provider(&self) -> (r: Result<SelectedProvider, ConfigError>)
        ensures
            self.default_provider is None ==> r == Err::<SelectedProvider, ConfigError>(
                ConfigError::NoDefaultProvider,
            ),
            self.default_provider == Some(AvailableProviders::AccuWeather) ==> r == Err::<
                SelectedProvider,
                ConfigError,
            >(ConfigError::ProviderUnavailable),
            self.default_provider == Some(AvailableProviders::WeatherAPI) ==> match self.weatherapi_api_key {
                None => r == Err::<SelectedProvider, ConfigError>(ConfigError::MissingWeatherApiKey),
                Some(key) => r matches Ok(SelectedProvider::WeatherAPI(p)) && p.base()
                    == "https://api.weatherapi.com"@ && p.key() == key@,
            },
            self.default_provider == Some(AvailableProviders::AerisWeather) ==> match (
                self.aerisweather_client_id,
                self.aerisweather_client_secret,
            ) {
                (None, _) => r == Err::<SelectedProvider, ConfigError>(
                    ConfigError::MissingAerisClientId,
                ),
                (Some(_), None) => r == Err::<SelectedProvider, ConfigError>(
                    ConfigError::MissingAerisClientSecret,
                ),
                (Some(id), Some(secret)) => r matches Ok(SelectedProvider::AerisWeather(p))
                    && p.base() == "https://api.aerisapi.com/"@ && p.id() == id@ && p.secret()
                    == secret@,
            },
    {
        match self.default_provider {
            None => Err(ConfigError::NoDefaultProvider),
            Some(AvailableProviders::AccuWeather) => Err(ConfigError::ProviderUnavailable),
            Some(AvailableProviders::WeatherAPI) => match &self.weatherapi_api_key {
                None => Err(ConfigError::MissingWeatherApiKey),
                Some(key) => Ok(
                    SelectedProvider::WeatherAPI(
                        WeatherAPIProvider::default().with_api_key(key.clone()),
                    ),
                ),
            },
            Some(AvailableProviders::AerisWeather) => match &self.aerisweather_client_id {
                None => Err(ConfigError::MissingAerisClientId),
                Some(id) => match &self.aerisweather_client_secret {
                    None => Err(ConfigError::MissingAerisClientSecret),
                    Some(secret) => Ok(
                        SelectedProvider::AerisWeather(
                            AerisWeatherProvider::default().with_credentials(
                                id.clone(),
                                secret.clone(),
                            ),
                        ),
                    ),
                },
            },
        }
    }
}

impl Default for Configuration {
    /// No provider chosen and no credentials, to be written to the usual place.
    fn default() -> (r: Self)
        ensures
            r.config_path is None,
            r.default_provider is None,
            r.weatherapi_api_key is None,
            r.aerisweather_client_id is None,
            r.aerisweather_client_secret is None,
    {
        Configuration {
            config_path: None,
            default_provider: None,
            weatherapi_api_key: None,
            aerisweather_client_id: None,
            aerisweather_client_secret: None,
        }
    }
}

} // verus!

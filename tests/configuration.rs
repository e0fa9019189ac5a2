use std::path::PathBuf;
use weather::configuration::{credential_prompts, ConfigError, Configuration, SelectedProvider};
use weather::types::AvailableProviders;

#[test]
fn setters_change_only_their_fields() {
    let mut config = Configuration::default().with_config_path(Some(PathBuf::from(".tmp/test.json")));
    config.set_weatherapi_api_key(Some("api_key_opt".to_owned()));
    config.set_default_provider(Some(AvailableProviders::AerisWeather));
    config.set_aerisweather_client_secret(Some("id".to_owned()), Some("secret".to_owned()));
    assert_eq!(config.weatherapi_api_key, Some("api_key_opt".into()));
    assert_eq!(config.default_provider, Some(AvailableProviders::AerisWeather));
    assert_eq!(config.aerisweather_client_id, Some("id".into()));
    assert_eq!(config.aerisweather_client_secret, Some("secret".into()));
    assert_eq!(config.config_path, Some(PathBuf::from(".tmp/test.json")));
}

#[test]
fn selection_needs_a_default_provider_and_its_credentials() {
    let mut config = Configuration::default();
    assert_eq!(config.selected_provider().err(), Some(ConfigError::NoDefaultProvider));
    config.set_default_provider(Some(AvailableProviders::WeatherAPI));
    assert_eq!(config.selected_provider().err(), Some(ConfigError::MissingWeatherApiKey));
    config.set_weatherapi_api_key(Some("k".to_owned()));
    assert!(matches!(config.selected_provider(), Ok(SelectedProvider::WeatherAPI(_))));
    config.set_default_provider(Some(AvailableProviders::AerisWeather));
    assert_eq!(config.selected_provider().err(), Some(ConfigError::MissingAerisClientId));
    config.set_aerisweather_client_secret(Some("id".to_owned()), None);
    assert_eq!(config.selected_provider().err(), Some(ConfigError::MissingAerisClientSecret));
    config.set_aerisweather_client_secret(Some("id".to_owned()), Some("s".to_owned()));
    assert!(matches!(config.selected_provider(), Ok(SelectedProvider::AerisWeather(_))));
    config.set_default_provider(Some(AvailableProviders::AccuWeather));
    assert_eq!(config.selected_provider().err(), Some(ConfigError::ProviderUnavailable));
}

#[test]
fn credentials_follow_the_prompts() {
    assert_eq!(credential_prompts(AvailableProviders::WeatherAPI), vec!["Please enter an API key for WeatherAPI"]);
    assert_eq!(
        credential_prompts(AvailableProviders::AerisWeather),
        vec!["Please enter a client id for AerisWeather", "Please enter a client secret for AerisWeather"]
    );
    assert!(credential_prompts(AvailableProviders::AccuWeather).is_empty());
    let mut config = Configuration::default();
    config.store_credentials(AvailableProviders::AerisWeather, &vec!["a".to_string(), "b".to_string()]);
    assert_eq!(config.aerisweather_client_id, Some("a".to_string()));
    assert_eq!(config.aerisweather_client_secret, Some("b".to_string()));
    assert_eq!(config.weatherapi_api_key, None);
    config.store_credentials(AvailableProviders::WeatherAPI, &vec!["key".to_string()]);
    assert_eq!(config.weatherapi_api_key, Some("key".to_string()));
}

#[test]
fn provider_names() {
    assert_eq!(AvailableProviders::from_string("AccuWeather"), Some(AvailableProviders::AccuWeather));
    assert_eq!(AvailableProviders::from_string("accuweather"), None);
    assert_eq!(AvailableProviders::from_string(""), None);
}

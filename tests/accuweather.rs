use weather::command::{DateOffsetRepresentation, WeatherCommand};
use weather::providers::accuweather::api::LocationSearchItem;
use weather::providers::accuweather::{first_location_key, AccuWeatherProvider};

const LOCATION_KEY: &str = "326514";

fn make_accuweather(base_url: &str, api_key: &str) -> AccuWeatherProvider {
    AccuWeatherProvider::new()
        .with_base_url(base_url.to_string())
        .with_api_key(api_key.to_string())
}

#[test]
fn test_url_location_api() {
    let t = make_accuweather("http://localhost", "22222");
    assert_eq!("http://localhost/locations/v1/search", t.url_location_api());
}

#[test]
fn test_url_current_weather() {
    let t = make_accuweather("http://localhost", "22222");
    assert_eq!(
        "http://localhost/currentconditions/v1/326514",
        t.url_current_weather(LOCATION_KEY)
    );
}

#[test]
fn location_search_sends_key_and_name() {
    let t = make_accuweather("http://localhost", "22222");
    let wc = WeatherCommand::new("Zaporizhzhia".to_string(), DateOffsetRepresentation::Now);
    let request = t.request_location_search(&wc);
    assert_eq!(request.url, "http://localhost/locations/v1/search");
    assert_eq!(
        request.query,
        vec![
            ("apikey".to_string(), "22222".to_string()),
            ("q".to_string(), "Zaporizhzhia".to_string())
        ]
    );
    let conditions = t.request_current_weather_conditions(LOCATION_KEY);
    assert_eq!(conditions.url, "http://localhost/currentconditions/v1/326514");
    assert_eq!(conditions.query, vec![("apikey".to_string(), "22222".to_string())]);
}

#[test]
fn first_found_location_gives_the_key() {
    let items = vec![
        LocationSearchItem { key: LOCATION_KEY.to_string() },
        LocationSearchItem { key: "1".to_string() },
    ];
    assert_eq!(first_location_key(&items), Some(LOCATION_KEY.to_string()));
    assert_eq!(first_location_key(&vec![]), None);
    assert_eq!(AccuWeatherProvider::default().url_location_api(), "http://dataservice.accuweather.com//locations/v1/search");
}

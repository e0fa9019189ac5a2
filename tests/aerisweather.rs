use weather::command::{DateOffsetRepresentation, WeatherCommand};
use weather::providers::aerisweather::api::{daily, hourly};
use weather::providers::aerisweather::report::{report_daily, report_hourly};
use weather::providers::aerisweather::{hour_offset_text, AerisBranch, AerisWeatherProvider};
use weather::providers::ProviderError;
use weather::report::Report;
use weather::time::Timestamp;

const NOW: Timestamp = Timestamp { epoch_secs: 1_570_864_850, subsec_nanos: 0, utc_offset_secs: 0 };

fn make_aeris() -> AerisWeatherProvider {
    AerisWeatherProvider::new()
        .with_base_url("http://h".to_string())
        .with_credentials("id".to_string(), "secret".to_string())
}

fn kyiv(date: DateOffsetRepresentation) -> WeatherCommand {
    WeatherCommand::new("Kyiv".to_string(), date)
}

fn pairs(query: &[(&str, &str)]) -> Vec<(String, String)> {
    query.iter().map(|(k, v)| (k.to_string(), v.to_string())).collect()
}

fn hourly_query(selector: &str) -> Vec<(String, String)> {
    pairs(&[
        ("client_id", "id"),
        ("client_secret", "secret"),
        ("plimit", "1"),
        ("format", "json"),
        ("filter", "1min"),
        ("for", selector),
    ])
}

#[test]
fn hour_selector_signs() {
    assert_eq!(hour_offset_text(8), "+8hours");
    assert_eq!(hour_offset_text(-3), "-3hours");
    assert_eq!(hour_offset_text(0), "0hours");
}

#[test]
fn future_hours_are_an_hourly_forecast() {
    let plan = make_aeris().plan(&kyiv(DateOffsetRepresentation::HourOffset(8)), NOW).unwrap();
    assert_eq!(plan.title, "AerisWeather - forecast(hourly)");
    assert_eq!(plan.branch, AerisBranch::Hourly);
    assert_eq!(plan.request.url, "http://h/conditions/Kyiv");
    assert_eq!(plan.request.query, hourly_query("+8hours"));
}

#[test]
fn past_hours_are_an_hourly_history() {
    let plan = make_aeris().plan(&kyiv(DateOffsetRepresentation::HourOffset(-3)), NOW).unwrap();
    assert_eq!(plan.title, "AerisWeather - history(hourly)");
    assert_eq!(plan.request.query, hourly_query("-3hours"));
}

#[test]
fn now_and_zero_offsets_are_current() {
    for date in [
        DateOffsetRepresentation::Now,
        DateOffsetRepresentation::HourOffset(0),
        DateOffsetRepresentation::DayOffset(0),
    ] {
        let plan = make_aeris().plan(&kyiv(date), NOW).unwrap();
        assert_eq!(plan.title, "AerisWeather - current");
        assert_eq!(plan.branch, AerisBranch::Hourly);
        assert_eq!(plan.request.query, hourly_query("now"));
    }
}

#[test]
fn day_offsets_ask_for_the_summary_of_the_resolved_date() {
    let plan = make_aeris().plan(&kyiv(DateOffsetRepresentation::DayOffset(2)), NOW).unwrap();
    assert_eq!(plan.title, "AerisWeather - forecast(daily)");
    assert_eq!(plan.branch, AerisBranch::Daily);
    assert_eq!(plan.request.url, "http://h/conditions/summary/Kyiv");
    assert_eq!(
        plan.request.query,
        pairs(&[("client_id", "id"), ("client_secret", "secret"), ("format", "json"), ("for", "2019/10/14")])
    );
    let past = make_aeris().plan(&kyiv(DateOffsetRepresentation::DayOffset(-12)), NOW).unwrap();
    assert_eq!(past.title, "AerisWeather - history(daily)");
    assert_eq!(past.request.query[3], ("for".to_string(), "2019/09/30".to_string()));
    let off = make_aeris().plan(&kyiv(DateOffsetRepresentation::DayOffset(isize::MIN)), NOW);
    assert_eq!(off.unwrap_err(), ProviderError::DateOutOfRange);
}

#[test]
fn default_adapter_keeps_the_trailing_slash() {
    let plan = AerisWeatherProvider::default().plan(&kyiv(DateOffsetRepresentation::Now), NOW).unwrap();
    assert_eq!(plan.request.url, "https://api.aerisapi.com//conditions/Kyiv");
}

fn period(timestamp: i64, weather: &str) -> hourly::Periods {
    hourly::Periods {
        timestamp,
        temp_c: "11".to_string(),
        temp_f: "51.8".to_string(),
        wind_dir: "SSE".to_string(),
        weather: weather.to_string(),
        humidity: 72,
    }
}

#[test]
fn hourly_report_appends_every_period_in_order() {
    let json = hourly::Json {
        success: true,
        response: vec![
            hourly::Response { periods: vec![period(1_570_864_850, "Cloudy"), period(1_570_914_300, "Clear")] },
            hourly::Response { periods: vec![] },
            hourly::Response { periods: vec![period(0, "Mild")] },
        ],
    };
    let mut report = Report::new("AerisWeather - current".to_string());
    report_hourly(&mut report, json);
    let titles: Vec<&String> = report.sections().iter().map(|s| s.get_title()).collect();
    assert_eq!(titles, vec!["12/10/2019 07:20 AM (UTC)", "12/10/2019 09:05 PM (UTC)", "01/01/1970 12:00 AM (UTC)"]);
    assert_eq!(
        *report.sections()[0].contents(),
        pairs(&[
            ("Condition", "Cloudy"),
            ("Wind direction", "SSE"),
            ("Temperature, C", "11°"),
            ("Temperature, F", "51.8°"),
            ("Humidity", "72%"),
        ])
    );
}

#[test]
fn daily_report_lists_summary_fields() {
    let p = daily::Periods {
        timestamp: 1_570_838_400,
        wind_speed: daily::WindSpeed { max_dir: "N".to_string(), min_dir: "S".to_string() },
        humidity: daily::Humidity { max: "90".to_string(), min: "40".to_string(), avg: "65.5".to_string() },
        pressure: daily::Pressure {
            max_m_b: "1020".to_string(),
            min_m_b: "1010".to_string(),
            avg_m_b: "1015".to_string(),
            max_i_n: "30.12".to_string(),
            min_i_n: "29.83".to_string(),
            avg_i_n: "29.97".to_string(),
        },
        temp: daily::Temp {
            avg_c: "10".to_string(),
            avg_f: "50".to_string(),
            min_c: "5".to_string(),
            min_f: "41".to_string(),
            max_c: "15".to_string(),
            max_f: "59".to_string(),
        },
        weather: daily::Weather { phrase: "Partly cloudy".to_string(), primary: "Clouds".to_string() },
    };
    let mut report = Report::new("AerisWeather - forecast(daily)".to_string());
    report_daily(&mut report, daily::Json { success: true, response: vec![daily::Response { periods: vec![p] }] });
    assert_eq!(report.sections().len(), 1);
    assert_eq!(report.sections()[0].get_title(), "12/10/2019 12:00 AM (UTC)");
    assert_eq!(
        *report.sections()[0].contents(),
        pairs(&[
            ("Condition", "Partly cloudy"),
            ("Average temp., C", "10°"),
            ("Average temp., F", "50°"),
            ("Min. temp., C", "5°"),
            ("Max. temp., C", "15°"),
            ("Min. temp., F", "41°"),
            ("Max. temp., F", "59°"),
            ("Average humidity", "65.5%"),
            ("Wind direction", "N"),
        ])
    );
}

//! WeatherAPI answers as reports.

use super::api;
use crate::report::{Report, ReportSection, SectionRepr, SectionView};
use crate::text::{decimal, degrees, pairs_view, percent, usize_text};
use crate::time::{format_utc, on_calendar, utc_text};
use vstd::prelude::*;

verus! {

/// The fields of a current-conditions answer.
pub open spec fn current_fields(c: api::current::Current) -> Seq<(Seq<char>, Seq<char>)> {
    seq![
        ("Condition"@, c.condition.text@),
        ("Temperature"@, c.temp_c@ + seq!['°']),
        ("Humidity"@, decimal(c.humidity as int) + seq!['%']),
        ("Wind direction"@, c.wind_dir@),
        ("Wind speed km/h"@, c.wind_kph@),
        ("Wind speed ml/h"@, c.wind_mph@),
    ]
}

/// The section of one day: titled with its date, then its condition and temperatures.
pub open spec fn day_section(
    date_epoch: i64,
    condition: Seq<char>,
    mintemp_c: Seq<char>,
    maxtemp_c: Seq<char>,
    mintemp_f: Seq<char>,
    maxtemp_f: Seq<char>,
) -> SectionView {
    (
        utc_text(date_epoch as int, "%d/%m/%Y"@),
        seq![
            ("Condition"@, condition),
            ("Minimum temp., C"@, mintemp_c + seq!['°']),
            ("Maximum temp., C"@, maxtemp_c + seq!['°']),
            ("Minimum temp., F"@, mintemp_f + seq!['°']),
            ("Maximum temp., F"@, maxtemp_f + seq!['°']),
        ],
    )
}

pub open spec fn forecast_day_section(d: api::forecast::ForecastDay) -> SectionView {
    day_section(
        d.date_epoch,
        d.day.condition.text@,
        d.day.mintemp_c@,
        d.day.maxtemp_c@,
        d.day.mintemp_f@,
        d.day.maxtemp_f@,
    )
}

pub open spec fn history_day_section(d: api::history::ForecastDay) -> SectionView {
    day_section(
        d.date_epoch,
        d.day.condition.text@,
        d.day.mintemp_c@,
        d.day.maxtemp_c@,
        d.day.mintemp_f@,
        d.day.maxtemp_f@,
    )
}

fn build_day_section(
    date_epoch: i64,
    condition: &String,
    mintemp_c: &String,
    maxtemp_c: &String,
    mintemp_f: &String,
    maxtemp_f: &String,
) -> (r: ReportSection)
    requires
        on_calendar(date_epoch as int),
    ensures
        r@ == day_section(
            date_epoch,
            condition@,
            mintemp_c@,
            maxtemp_c@,
            mintemp_f@,
            maxtemp_f@,
        ),
{
    let mut day_report: SectionRepr = Vec::new();
    day_report.push(("Condition".to_owned(), condition.clone()));
    day_report.push(("Minimum temp., C".to_owned(), degrees(mintemp_c.as_str())));
    day_report.push(("Maximum temp., C".to_owned(), degrees(maxtemp_c.as_str())));
    day_report.push(("Minimum temp., F".to_owned(), degrees(mintemp_f.as_str())));
    day_report.push(("Maximum temp., F".to_owned(), degrees(maxtemp_f.as_str())));
    let title = format_utc(date_epoch, "%d/%m/%Y");
    let ghost expected = day_section(
        date_epoch,
        condition@,
        mintemp_c@,
        maxtemp_c@,
        mintemp_f@,
        maxtemp_f@,
    );
    assert(pairs_view(day_report@) =~= expected.1);
    ReportSection::new(title, day_report)
}

/// The report of a current-conditions answer: one section, "Status".
pub fn report_current(current: api::current::Json) -> (r: Report)
    ensures
        r@ == ("WeatherAPI - current"@, seq![("Status"@, current_fields(current.current))]),
{
    let mut r = Report::new("WeatherAPI - current".to_owned());
    let c = &current.current;
    let mut details: SectionRepr = Vec::new();
    details.push(("Condition".to_owned(), c.condition.text.clone()));
    details.push(("Temperature".to_owned(), degrees(c.temp_c.as_str())));
    let humidity = usize_text(c.humidity);
    details.push(("Humidity".to_owned(), percent(humidity.as_str())));
    details.push(("Wind direction".to_owned(), c.wind_dir.clone()));
    details.push(("Wind speed km/h".to_owned(), c.wind_kph.clone()));
    details.push(("Wind speed ml/h".to_owned(), c.wind_mph.clone()));
    assert(pairs_view(details@)[2] == current_fields(current.current)[2]);
    assert(pairs_view(details@) =~= current_fields(current.current));
    let rs = ReportSection::new("Status".to_owned(), details);
    r.add_section(rs);
    assert(r@.1 =~= seq![("Status"@, current_fields(current.current))]);
    r
}

/// The report of a forecast answer: one section per day, in the answer's order.
pub fn report_forecast(forecast: api::forecast::Json) -> (r: Report)
    requires
        forall|i: int|
            0 <= i < forecast.forecast.forecastday@.len() ==> on_calendar(
                #[trigger] forecast.forecast.forecastday@[i].date_epoch as int,
            ),
    ensures
        r@ == (
            "WeatherAPI - forecast"@,
            forecast.forecast.forecastday@.map_values(
                |d: api::forecast::ForecastDay| forecast_day_section(d),
            ),
        ),
{
    let mut r = Report::new("WeatherAPI - forecast".to_owned());
    let days = &forecast.forecast.forecastday;
    let ghost all = days@.map_values(|d: api::forecast::ForecastDay| forecast_day_section(d));
    let mut i: usize = 0;
    while i < days.len()
        invariant
            i <= days@.len(),
            all == days@.map_values(|d: api::forecast::ForecastDay| forecast_day_section(d)),
            forall|k: int| 0 <= k < days@.len() ==> on_calendar(#[trigger] days@[k].date_epoch as int),
            r@ == ("WeatherAPI - forecast"@, all.subrange(0, i as int)),
        decreases days@.len() - i,
    {
        let day = &days[i];
        let rs = build_day_section(
            day.date_epoch,
            &day.day.condition.text,
            &day.day.mintemp_c,
            &day.day.maxtemp_c,
            &day.day.mintemp_f,
            &day.day.maxtemp_f,
        );
        r.add_section(rs);
        assert(all.subrange(0, i + 1) =~= all.subrange(0, i as int).push(all[i as int]));
        i = i + 1;
    }
    assert(all.subrange(0, i as int) =~= all);
    r
}

/// The report of a history answer: one section per day, in the answer's order.
pub fn report_history(history: api::history::Json) -> (r: Report)
    requires
        forall|i: int|
            0 <= i < history.forecast.forecastday@.len() ==> on_calendar(
                #[trigger] history.forecast.forecastday@[i].date_epoch as int,
            ),
    ensures
        r@ == (
            "WeatherAPI - history"@,
            history.forecast.forecastday@.map_values(
                |d: api::history::ForecastDay| history_day_section(d),
            ),
        ),
{
    let mut r = Report::new("WeatherAPI - history".to_owned());
    let days = &history.forecast.forecastday;
    let ghost all = days@.map_values(|d: api::history::ForecastDay| history_day_section(d));
    let mut i: usize = 0;
    while i < days.len()
        invariant
            i <= days@.len(),
            all == days@.map_values(|d: api::history::ForecastDay| history_day_section(d)),
            forall|k: int| 0 <= k < days@.len() ==> on_calendar(#[trigger] days@[k].date_epoch as int),
            r@ == ("WeatherAPI - history"@, all.subrange(0, i as int)),
        decreases days@.len() - i,
    {
        let day = &days[i];
        let rs = build_day_section(
            day.date_epoch,
            &day.day.condition.text,
            &day.day.mintemp_c,
            &day.day.maxtemp_c,
            &day.day.mintemp_f,
            &day.day.maxtemp_f,
        );
        r.add_section(rs);
        assert(all.subrange(0, i + 1) =~= all.subrange(0, i as int).push(all[i as int]));
        i = i + 1;
    }
    assert(all.subrange(0, i as int) =~= all);
    r
}

} // verus!

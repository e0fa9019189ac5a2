//! AerisWeather answers as report sections.

use super::api;
use crate::report::{Report, ReportSection, SectionRepr, SectionView};
use crate::text::{decimal, degrees, pairs_view, percent, usize_text};
use crate::time::{format_utc, on_calendar, utc_text};
use vstd::prelude::*;

verus! {

/// The title of a period's section: its date and time, in UTC.
pub open spec fn period_title(timestamp: i64) -> Seq<char> {
    utc_text(timestamp as int, "%d/%m/%Y %I:%M %p (UTC)"@)
}

pub open spec fn hourly_section(p: api::hourly::Periods) -> SectionView {
    (
        period_title(p.timestamp),
        seq![
            ("Condition"@, p.weather@),
            ("Wind direction"@, p.wind_dir@),
            ("Temperature, C"@, p.temp_c@ + seq!['°']),
            ("Temperature, F"@, p.temp_f@ + seq!['°']),
            ("Humidity"@, decimal(p.humidity as int) + seq!['%']),
        ],
    )
}

pub open spec fn daily_section(p: api::daily::Periods) -> SectionView {
    (
        period_title(p.timestamp),
        seq![
            ("Condition"@, p.weather.phrase@),
            ("Average temp., C"@, p.temp.avg_c@ + seq!['°']),
            ("Average temp., F"@, p.temp.avg_f@ + seq!['°']),
            ("Min. temp., C"@, p.temp.min_c@ + seq!['°']),
            ("Max. temp., C"@, p.temp.max_c@ + seq!['°']),
            ("Min. temp., F"@, p.temp.min_f@ + seq!['°']),
            ("Max. temp., F"@, p.temp.max_f@ + seq!['°']),
            ("Average humidity"@, p.humidity.avg@ + seq!['%']),
            ("Wind direction"@, p.wind_speed.max_dir@),
        ],
    )
}

/// The sections of the periods of each response, the responses in order.
pub open spec fn hourly_sections(responses: Seq<api::hourly::Response>) -> Seq<SectionView>
    decreases responses.len(),
{
    if responses.len() == 0 {
        Seq::empty()
    } else {
        hourly_sections(responses.drop_last()) + responses.last().periods@.map_values(
            |p: api::hourly::Periods| hourly_section(p),
        )
    }
}

/// The sections of the periods of each response, the responses in order.
pub open spec fn daily_sections(responses: Seq<api::daily::Response>) -> Seq<SectionView>
    decreases responses.len(),
{
    if responses.len() == 0 {
        Seq::empty()
    } else {
        daily_sections(responses.drop_last()) + responses.last().periods@.map_values(
            |p: api::daily::Periods| daily_section(p),
        )
    }
}

/// Whether every period of every response has its instant on the calendar.
pub open spec fn hourly_on_calendar(responses: Seq<api::hourly::Response>) -> bool {
    forall|i: int, j: int|
        0 <= i < responses.len() && 0 <= j < responses[i].periods@.len() ==> on_calendar(
            #[trigger] responses[i].periods@[j].timestamp as int,
        )
}

/// Whether every period of every response has its instant on the calendar.
pub open spec fn daily_on_calendar(responses: Seq<api::daily::Response>) -> bool {
    forall|i: int, j: int|
        0 <= i < responses.len() && 0 <= j < responses[i].periods@.len() ==> on_calendar(
            #[trigger] responses[i].periods@[j].timestamp as int,
        )
}

fn build_hourly_section(p: &api::hourly::Periods) -> (r: ReportSection)
    requires
        on_calendar(p.timestamp as int),
    ensures
        r@ == hourly_section(*p),
{
    let mut details: SectionRepr = Vec::new();
    details.push(("Condition".to_owned(), p.weather.clone()));
    details.push(("Wind direction".to_owned(), p.wind_dir.clone()));
    details.push(("Temperature, C".to_owned(), degrees(p.temp_c.as_str())));
    details.push(("Temperature, F".to_owned(), degrees(p.temp_f.as_str())));
    let humidity = usize_text(p.humidity);
    details.push(("Humidity".to_owned(), percent(humidity.as_str())));
    assert(pairs_view(details@) =~= hourly_section(*p).1);
    ReportSection::new(format_utc(p.timestamp, "%d/%m/%Y %I:%M %p (UTC)"), details)
}

fn build_daily_section(p: &api::daily::Periods) -> (r: ReportSection)
    requires
        on_calendar(p.timestamp as int),
    ensures
        r@ == daily_section(*p),
{
    let mut details: SectionRepr = Vec::new();
    details.push(("Condition".to_owned(), p.weather.phrase.clone()));
    details.push(("Average temp., C".to_owned(), degrees(p.temp.avg_c.as_str())));
    details.push(("Average temp., F".to_owned(), degrees(p.temp.avg_f.as_str())));
    details.push(("Min. temp., C".to_owned(), degrees(p.temp.min_c.as_str())));
    details.push(("Max. temp., C".to_owned(), degrees(p.temp.max_c.as_str())));
    details.push(("Min. temp., F".to_owned(), degrees(p.temp.min_f.as_str())));
    details.push(("Max. temp., F".to_owned(), degrees(p.temp.max_f.as_str())));
    details.push(("Average humidity".to_owned(), percent(p.humidity.avg.as_str())));
    details.push(("Wind direction".to_owned(), p.wind_speed.max_dir.clone()));
    assert(pairs_view(details@) =~= daily_section(*p).1);
    ReportSection::new(format_utc(p.timestamp, "%d/%m/%Y %I:%M %p (UTC)"), details)
}

/// Adds to `report` one section per period of an hourly answer, in the answer's order.
pub fn report_hourly(report: &mut Report, hourly: api::hourly::Json)
    requires
        hourly_on_calendar(hourly.response@),
    ensures
        final(report)@ == (old(report)@.0, old(report)@.1 + hourly_sections(hourly.response@)),
{
    let responses = &hourly.response;
    let mut i: usize = 0;
    while i < responses.len()
        invariant
            i <= responses@.len(),
            hourly_on_calendar(responses@),
            report@ == (
                old(report)@.0,
                old(report)@.1 + hourly_sections(responses@.subrange(0, i as int)),
            ),
        decreases responses@.len() - i,
    {
        let periods = &responses[i].periods;
        let ghost done = old(report)@.1 + hourly_sections(responses@.subrange(0, i as int));
        let ghost all = periods@.map_values(|p: api::hourly::Periods| hourly_section(p));
        let mut j: usize = 0;
        while j < periods.len()
            invariant
                i < responses@.len(),
                j <= periods@.len(),
                periods == responses@[i as int].periods,
                all == periods@.map_values(|p: api::hourly::Periods| hourly_section(p)),
                hourly_on_calendar(responses@),
                report@ == (old(report)@.0, done + all.subrange(0, j as int)),
            decreases periods@.len() - j,
        {
            assert(on_calendar(responses@[i as int].periods@[j as int].timestamp as int));
            let rs = build_hourly_section(&periods[j]);
            report.add_section(rs);
            assert(done + all.subrange(0, j + 1) =~= (done + all.subrange(0, j as int)).push(
                all[j as int],
            ));
            j = j + 1;
        }
        proof {
            let next = responses@.subrange(0, i + 1);
            assert(next.drop_last() =~= responses@.subrange(0, i as int));
            assert(next.last() == responses@[i as int]);
            assert(all.subrange(0, j as int) =~= all);
            assert(done + all =~= old(report)@.1 + hourly_sections(next));
        }
        i = i + 1;
    }
    assert(responses@.subrange(0, i as int) =~= responses@);
}

/// Adds to `report` one section per period of a daily answer, in the answer's order.
pub fn report_daily(report: &mut Report, daily: api::daily::Json)
    requires
        daily_on_calendar(daily.response@),
    ensures
        final(report)@ == (old(report)@.0, old(report)@.1 + daily_sections(daily.response@)),
{
    let responses = &daily.response;
    let mut i: usize = 0;
    while i < responses.len()
        invariant
            i <= responses@.len(),
            daily_on_calendar(responses@),
            report@ == (
                old(report)@.0,
                old(report)@.1 + daily_sections(responses@.subrange(0, i as int)),
            ),
        decreases responses@.len() - i,
    {
        let periods = &responses[i].periods;
        let ghost done = old(report)@.1 + daily_sections(responses@.subrange(0, i as int));
        let ghost all = periods@.map_values(|p: api::daily::Periods| daily_section(p));
        let mut j: usize = 0;
        while j < periods.len()
            invariant
                i < responses@.len(),
                j <= periods@.len(),
                periods == responses@[i as int].periods,
                all == periods@.map_values(|p: api::daily::Periods| daily_section(p)),
                daily_on_calendar(responses@),
                report@ == (old(report)@.0, done + all.subrange(0, j as int)),
            decreases periods@.len() - j,
        {
            assert(on_calendar(responses@[i as int].periods@[j as int].timestamp as int));
            let rs = build_daily_section(&periods[j]);
            report.add_section(rs);
            assert(done + all.subrange(0, j + 1) =~= (done + all.subrange(0, j as int)).push(
                all[j as int],
            ));
            j = j + 1;
        }
        proof {
            let next = responses@.subrange(0, i + 1);
            assert(next.drop_last() =~= responses@.subrange(0, i as int));
            assert(next.last() == responses@[i as int]);
            assert(all.subrange(0, j as int) =~= all);
            assert(done + all =~= old(report)@.1 + daily_sections(next));
        }
        i = i + 1;
    }
    assert(responses@.subrange(0, i as int) =~= responses@);
}

} // verus!

use chrono::{DateTime, FixedOffset, TimeZone};
use weather::args::GetArgs;
use weather::command::{DateOffsetRepresentation, WeatherCommand};
use weather::time::Timestamp;
use weather::util::parse_get_action;

fn timestamp_of(d: DateTime<FixedOffset>) -> Timestamp {
    Timestamp {
        epoch_secs: d.timestamp(),
        subsec_nanos: d.timestamp_subsec_nanos(),
        utc_offset_secs: d.offset().local_minus_utc(),
    }
}

fn rfc3339_of(t: Timestamp) -> String {
    FixedOffset::east_opt(t.utc_offset_secs)
        .expect("offset")
        .timestamp_opt(t.epoch_secs, t.subsec_nanos)
        .unwrap()
        .to_rfc3339()
}

#[test]
fn test_to_chrono() {
    let d = DateTime::<FixedOffset>::parse_from_rfc3339("2019-10-12T07:20:50.52Z")
        .expect("Couldn't parse the datetime");
    let origin = timestamp_of(d);
    let min_5d = DateOffsetRepresentation::DayOffset(-5).to_chrono(origin);
    assert_eq!(rfc3339_of(min_5d), "2019-10-07T07:20:50.520+00:00");

    let plus_8h = DateOffsetRepresentation::HourOffset(8).to_chrono(origin);
    assert_eq!(rfc3339_of(plus_8h), "2019-10-12T15:20:50.520+00:00")
}

#[test]
fn day_offsets_are_undone_by_their_negation() {
    let d = DateTime::<FixedOffset>::parse_from_rfc3339("2019-10-12T07:20:50.52Z").unwrap();
    let origin = timestamp_of(d);
    let back = DateOffsetRepresentation::DayOffset(-5).to_chrono(origin);
    let again = DateOffsetRepresentation::DayOffset(5).to_chrono(back);
    assert_eq!(again, origin);
}

#[test]
fn offsets_add_up() {
    let origin = Timestamp { epoch_secs: 1_570_864_850, subsec_nanos: 7, utc_offset_secs: 3600 };
    let two_steps = DateOffsetRepresentation::HourOffset(-3)
        .to_chrono(DateOffsetRepresentation::HourOffset(10).to_chrono(origin));
    assert_eq!(two_steps, DateOffsetRepresentation::HourOffset(7).to_chrono(origin));
    assert_eq!(two_steps.epoch_secs, 1_570_864_850 + 7 * 3600);
    assert_eq!(two_steps.subsec_nanos, 7);
    assert_eq!(two_steps.utc_offset_secs, 3600);
    assert_eq!(DateOffsetRepresentation::Now.to_chrono(origin), origin);
}

#[test]
fn resolvable_only_within_i64_seconds() {
    let origin = Timestamp { epoch_secs: 0, subsec_nanos: 0, utc_offset_secs: 0 };
    assert!(DateOffsetRepresentation::DayOffset(1000).resolvable_from(&origin));
    assert!(!DateOffsetRepresentation::DayOffset(isize::MAX).resolvable_from(&origin));
    assert!(!DateOffsetRepresentation::HourOffset(isize::MIN).resolvable_from(&origin));
    let late = Timestamp { epoch_secs: i64::MAX - 10, subsec_nanos: 0, utc_offset_secs: 0 };
    assert!(!DateOffsetRepresentation::HourOffset(1).resolvable_from(&late));
    assert!(DateOffsetRepresentation::Now.resolvable_from(&late));
}

#[test]
fn default_offset_is_now() {
    assert_eq!(DateOffsetRepresentation::default(), DateOffsetRepresentation::Now);
}

#[test]
fn get_action_becomes_a_command() {
    let with_date = parse_get_action(GetArgs {
        location: "Kyiv".to_string(),
        date: Some("h2d".to_string()),
    });
    assert_eq!(with_date.location, "Kyiv");
    assert_eq!(with_date.date, DateOffsetRepresentation::DayOffset(-2));
    let without = parse_get_action(GetArgs { location: "Lviv".to_string(), date: None });
    assert_eq!(without.date, DateOffsetRepresentation::Now);
    let command = WeatherCommand::new("Odesa".to_string(), DateOffsetRepresentation::Now);
    assert_eq!(command.location, "Odesa");
}

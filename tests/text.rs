use chrono::{DateTime, Utc};
use weather::report::{Report, ReportSection};
use weather::text::{isize_text, pad_right, usize_text};
use weather::time::{MAX_UTC_SECS, MIN_UTC_SECS};

#[test]
fn integers_in_decimal() {
    assert_eq!(isize_text(0), "0");
    assert_eq!(isize_text(7), "7");
    assert_eq!(isize_text(-8), "-8");
    assert_eq!(isize_text(1234567), "1234567");
    assert_eq!(isize_text(isize::MIN), isize::MIN.to_string());
    assert_eq!(isize_text(isize::MAX), isize::MAX.to_string());
    assert_eq!(usize_text(usize::MAX), usize::MAX.to_string());
    assert_eq!(usize_text(40), "40");
}

#[test]
fn padding_fills_to_width() {
    assert_eq!(pad_right("ab", 5), "ab   ");
    assert_eq!(pad_right("abcdef", 3), "abcdef");
    assert_eq!(pad_right("°C", 4), "°C  ");
    assert_eq!(pad_right("", 0), "");
}

#[test]
fn calendar_bounds_match_chrono() {
    assert_eq!(MIN_UTC_SECS, DateTime::<Utc>::MIN_UTC.timestamp());
    assert_eq!(MAX_UTC_SECS, DateTime::<Utc>::MAX_UTC.timestamp());
    assert!(DateTime::<Utc>::from_timestamp(MIN_UTC_SECS - 1, 0).is_none());
    assert!(DateTime::<Utc>::from_timestamp(MAX_UTC_SECS + 1, 0).is_none());
}

#[test]
fn report_renders_fields_in_order_with_padding() {
    let mut report = Report::new("Title".to_string());
    let fields = vec![
        ("Condition".to_string(), "Overcast".to_string()),
        ("Humidity".to_string(), "40%".to_string()),
    ];
    report.add_section(ReportSection::new("Status".to_string(), fields));
    report.add_section(ReportSection::new("Empty".to_string(), vec![]));
    let expected = format!(
        "Title\nStatus\n{:<35} | {:<20}\n{:<35} | {:<20}\n\nEmpty\n\n",
        "Condition", "Overcast", "Humidity", "40%"
    );
    assert_eq!(report.render(), expected);
    assert_eq!(report.render(), expected);
    assert!(expected.contains("Condition                           | Overcast            \n"));
}

#[test]
fn report_without_sections_is_its_title_line() {
    let report = Report::new("Only".to_string());
    assert_eq!(report.render(), "Only\n");
    assert_eq!(report.title(), "Only");
    assert!(report.sections().is_empty());
}

#[test]
fn section_renders_title_and_lines() {
    let long = "x".repeat(40);
    let section = ReportSection::new("S".to_string(), vec![(long.clone(), "v".to_string())]);
    assert_eq!(section.render(), format!("S\n{} | v                   \n", long));
    assert_eq!(section.get_title(), "S");
    assert_eq!(section.contents().len(), 1);
}

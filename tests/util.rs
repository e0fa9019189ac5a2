use weather::command::DateOffsetRepresentation;
use weather::util::parse_date_arg;

#[test]
fn test_parse_date_arg() {
    assert_eq!(parse_date_arg("h8H"), DateOffsetRepresentation::HourOffset(-8));
    assert_eq!(parse_date_arg("h7D"), DateOffsetRepresentation::DayOffset(-7));
    assert_eq!(parse_date_arg("hNon8D"), DateOffsetRepresentation::Now);
    assert_eq!(parse_date_arg("h0d"), DateOffsetRepresentation::Now);
}

#[test]
fn short_tokens_stand_for_now() {
    for token in ["", "h", "H", "hh", "h5", "5d", "dd"] {
        assert_eq!(parse_date_arg(token), DateOffsetRepresentation::Now, "{}", token);
    }
}

#[test]
fn leading_character_must_be_h() {
    assert_eq!(parse_date_arg("f5d"), DateOffsetRepresentation::Now);
    assert_eq!(parse_date_arg("x12h"), DateOffsetRepresentation::Now);
    assert_eq!(parse_date_arg("H12h"), DateOffsetRepresentation::HourOffset(-12));
}

#[test]
fn trailing_character_is_the_unit() {
    assert_eq!(parse_date_arg("h5d"), DateOffsetRepresentation::DayOffset(-5));
    assert_eq!(parse_date_arg("h5h"), DateOffsetRepresentation::HourOffset(-5));
    assert_eq!(parse_date_arg("h5m"), DateOffsetRepresentation::Now);
}

#[test]
fn signed_magnitudes_are_negated() {
    assert_eq!(parse_date_arg("h-3h"), DateOffsetRepresentation::HourOffset(3));
    assert_eq!(parse_date_arg("h+4d"), DateOffsetRepresentation::DayOffset(-4));
    assert_eq!(parse_date_arg("h-0d"), DateOffsetRepresentation::Now);
    assert_eq!(parse_date_arg("h+d"), DateOffsetRepresentation::Now);
    assert_eq!(parse_date_arg("h-d"), DateOffsetRepresentation::Now);
    assert_eq!(parse_date_arg("h--2d"), DateOffsetRepresentation::Now);
    assert_eq!(parse_date_arg("h1 2d"), DateOffsetRepresentation::Now);
}

#[test]
fn magnitudes_out_of_range_stand_for_now() {
    assert_eq!(parse_date_arg("h99999999999999999999999d"), DateOffsetRepresentation::Now);
    let min = format!("h{}d", isize::MIN);
    assert_eq!(parse_date_arg(&min), DateOffsetRepresentation::Now);
    let max = format!("h{}h", isize::MAX);
    assert_eq!(parse_date_arg(&max), DateOffsetRepresentation::HourOffset(-isize::MAX));
    let neg_max = format!("h-{}d", isize::MAX);
    assert_eq!(parse_date_arg(&neg_max), DateOffsetRepresentation::DayOffset(isize::MAX));
}

#[test]
fn non_ascii_tokens_are_read_by_character() {
    assert_eq!(parse_date_arg("hé5d"), DateOffsetRepresentation::Now);
    assert_eq!(parse_date_arg("é5d"), DateOffsetRepresentation::Now);
    assert_eq!(parse_date_arg("h5é"), DateOffsetRepresentation::Now);
}

use portfolio::day_text::{day_from_parsed, decode_day_field, encode_day, DayTextError};
use portfolio::moment::{history_window, Moment};

#[test]
fn day_text_round_trip() {
    let day = Moment { secs: 1738281600, nanos: 0 };
    let text = encode_day(&day).unwrap();
    assert_eq!(text, "2025-01-31");
    assert_eq!(decode_day_field(&Some(text)), Ok(Some(day)));
    let late = Moment { secs: 1738281600 + 45_000, nanos: 7 };
    assert_eq!(encode_day(&late).unwrap(), "2025-01-31");
    assert_eq!(encode_day(&Moment { secs: -1, nanos: 0 }).unwrap(), "1969-12-31");
    assert_eq!(decode_day_field(&Some("1969-12-31".to_string())), Ok(Some(Moment { secs: -86400, nanos: 0 })));
}

#[test]
fn empty_or_missing_day_is_absent() {
    assert_eq!(decode_day_field(&Some(String::new())), Ok(None));
    assert_eq!(decode_day_field(&None), Ok(None));
}

#[test]
fn malformed_day_is_rejected() {
    assert_eq!(decode_day_field(&Some("31/01/2025".to_string())), Err(DayTextError::Malformed));
    assert_eq!(decode_day_field(&Some("2025-02-30".to_string())), Err(DayTextError::Malformed));
}

#[test]
fn history_window_spans_three_days() {
    let date = Moment { secs: 1577836800, nanos: 500 };
    let (start, end) = history_window(&date);
    assert_eq!(start, Moment { secs: 1577836800, nanos: 0 });
    assert_eq!(end, Moment { secs: 1577836800 + 3 * 86400, nanos: 0 });
}

#[test]
fn parsed_day_becomes_midnight() {
    assert_eq!(day_from_parsed(Some(86400)), Ok(Some(Moment { secs: 86400, nanos: 0 })));
    assert_eq!(day_from_parsed(None), Err(DayTextError::Malformed));
}

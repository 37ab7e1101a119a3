use space_traders::decode::{DecodeError, JsonKind, Shape};
use space_traders::json::Json;
use space_traders::time::{parse_date_time, parse_optional_date_time, Timestamp};

#[test]
fn parse_reads_utc_with_milliseconds() {
    assert_eq!(
        Timestamp::parse("2023-05-13T21:45:36.828Z"),
        Some(Timestamp { seconds: 1684014336, nanos: 828_000_000 })
    );
}

#[test]
fn parse_reads_whole_seconds() {
    assert_eq!(Timestamp::parse("2019-08-24T14:15:22Z"), Some(Timestamp { seconds: 1566656122, nanos: 0 }));
}

#[test]
fn parse_applies_the_offset() {
    assert_eq!(Timestamp::parse("1996-12-19T16:39:57-08:00"), Some(Timestamp { seconds: 851042397, nanos: 0 }));
    assert_eq!(Timestamp::parse("1996-12-20T00:39:57Z"), Some(Timestamp { seconds: 851042397, nanos: 0 }));
}

#[test]
fn parse_reads_instants_before_the_epoch() {
    assert_eq!(Timestamp::parse("1969-12-31T23:59:59Z"), Some(Timestamp { seconds: -1, nanos: 0 }));
}

#[test]
fn parse_refuses_what_is_no_timestamp() {
    assert_eq!(Timestamp::parse(""), None);
    assert_eq!(Timestamp::parse("yesterday"), None);
    assert_eq!(Timestamp::parse("2023-05-13"), None);
    assert_eq!(Timestamp::parse("2023-05-13T21:45:36"), None);
    assert_eq!(Timestamp::parse("2023-13-13T21:45:36Z"), None);
}

#[test]
fn checked_passes_an_instant_on() {
    let t = Timestamp { seconds: 5, nanos: 6 };
    assert_eq!(Timestamp::checked(Some(t), "x", "expiration"), Ok(t));
}

#[test]
fn checked_names_field_and_text_of_a_failure() {
    assert_eq!(
        Timestamp::checked(None, "soon", "expiration"),
        Err(DecodeError::InvalidTimestamp { field: "expiration".to_string(), value: "soon".to_string() })
    );
}

#[test]
fn parse_date_time_decodes_a_string() {
    let j = Json::Str("2023-05-13T21:45:36.828Z".to_string());
    assert_eq!(parse_date_time(&j, "expiration"), Ok(Timestamp { seconds: 1684014336, nanos: 828_000_000 }));
}

#[test]
fn parse_date_time_fails_on_bad_text() {
    let j = Json::Str("not a date".to_string());
    assert_eq!(
        parse_date_time(&j, "deadline"),
        Err(DecodeError::InvalidTimestamp { field: "deadline".to_string(), value: "not a date".to_string() })
    );
}

#[test]
fn parse_date_time_fails_on_another_shape() {
    assert_eq!(
        parse_date_time(&Json::Int(1684014336), "deadline"),
        Err(DecodeError::TypeMismatch { field: "deadline".to_string(), expected: Shape::Text, got: JsonKind::Int })
    );
    assert_eq!(
        parse_date_time(&Json::Null, "deadline"),
        Err(DecodeError::TypeMismatch { field: "deadline".to_string(), expected: Shape::Text, got: JsonKind::Null })
    );
}

#[test]
fn parse_optional_date_time_takes_null_for_no_value() {
    assert_eq!(parse_optional_date_time(&Json::Null, "submittedOn"), Ok(None));
}

#[test]
fn parse_optional_date_time_decodes_a_string() {
    let j = Json::Str("2019-08-24T14:15:22Z".to_string());
    assert_eq!(parse_optional_date_time(&j, "submittedOn"), Ok(Some(Timestamp { seconds: 1566656122, nanos: 0 })));
}

#[test]
fn parse_optional_date_time_fails_on_bad_text() {
    let j = Json::Str("never".to_string());
    assert_eq!(
        parse_optional_date_time(&j, "submittedOn"),
        Err(DecodeError::InvalidTimestamp { field: "submittedOn".to_string(), value: "never".to_string() })
    );
}

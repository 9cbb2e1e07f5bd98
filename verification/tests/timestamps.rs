use telemetry_ingestor::rejection::Rejection;
use telemetry_ingestor::request::TelemetryRequest;
use telemetry_ingestor::timestamp::Timestamp;

fn request_at(text: &str) -> TelemetryRequest {
    TelemetryRequest {
        vesselId: "V100".to_string(),
        timestampUTC: text.to_string(),
        epochUTC: None,
        signals: Vec::new(),
    }
}

#[test]
fn utc_instants_are_read() {
    assert_eq!(
        Timestamp::parse("2024-05-01T12:30:00Z"),
        Some(Timestamp { seconds: 1714566600, nanos: 0 })
    );
    assert_eq!(
        Timestamp::parse("1970-01-01T00:00:00Z"),
        Some(Timestamp { seconds: 0, nanos: 0 })
    );
    assert_eq!(
        Timestamp::parse("1969-12-31T23:59:59Z"),
        Some(Timestamp { seconds: -1, nanos: 0 })
    );
}

#[test]
fn offsets_are_brought_to_utc() {
    assert_eq!(
        Timestamp::parse("2024-05-01T14:30:00+02:00"),
        Some(Timestamp { seconds: 1714566600, nanos: 0 })
    );
    assert_eq!(
        Timestamp::parse("1996-12-19T16:39:57-08:00"),
        Some(Timestamp { seconds: 851042397, nanos: 0 })
    );
}

#[test]
fn fractions_of_a_second_are_kept() {
    assert_eq!(
        Timestamp::parse("2024-05-01T12:30:00.25Z"),
        Some(Timestamp { seconds: 1714566600, nanos: 250_000_000 })
    );
    assert_eq!(
        Timestamp::parse("2024-05-01T12:30:00.123456789Z"),
        Some(Timestamp { seconds: 1714566600, nanos: 123_456_789 })
    );
}

#[test]
fn leap_seconds_count_beyond_the_second() {
    assert_eq!(
        Timestamp::parse("2016-12-31T23:59:60Z"),
        Some(Timestamp { seconds: 1483228799, nanos: 1_000_000_000 })
    );
}

#[test]
fn instants_agree_with_chrono() {
    for text in [
        "2024-05-01T12:30:00Z",
        "2024-02-29T23:59:59.999+05:30",
        "2000-01-01t00:00:00z",
        "2024-05-01 12:30:00Z",
        "0001-01-01T00:00:00Z",
        "9999-12-31T23:59:59Z",
    ] {
        let parsed = chrono::DateTime::parse_from_rfc3339(text).unwrap();
        assert_eq!(
            Timestamp::parse(text),
            Some(Timestamp {
                seconds: parsed.timestamp(),
                nanos: parsed.timestamp_subsec_nanos()
            }),
            "{text}"
        );
        let utc = parsed.with_timezone(&chrono::Utc);
        let again = chrono::DateTime::from_timestamp(parsed.timestamp(), parsed.timestamp_subsec_nanos());
        assert_eq!(again, Some(utc), "{text}");
    }
}

#[test]
fn malformed_instants_are_refused() {
    for text in [
        "",
        "not-a-time",
        "2024-05-01",
        "2024-05-01T12:30:00",
        "2024-13-01T12:30:00Z",
        "2024-02-30T12:30:00Z",
        "2024-05-01T24:00:00Z",
        "2024-05-01T12:30:00Z ",
        " 2024-05-01T12:30:00Z",
        "2024-05-01T12:30:00+0200",
        "01/05/2024 12:30",
        "1714566600",
    ] {
        assert_eq!(Timestamp::parse(text), None, "{text:?}");
        assert!(chrono::DateTime::parse_from_rfc3339(text).is_err(), "{text:?}");
    }
}

#[test]
fn request_timestamp_is_parsed() {
    assert_eq!(
        request_at("2024-05-01T12:30:00Z").parse_timestamp(),
        Ok(Timestamp { seconds: 1714566600, nanos: 0 })
    );
}

#[test]
fn malformed_request_timestamp_is_a_bad_request() {
    assert_eq!(request_at("yesterday").parse_timestamp(), Err(Rejection::BadRequest));
    assert_eq!(request_at("").parse_timestamp(), Err(Rejection::BadRequest));
}

use entitlement::timestamp::{format_rfc3339, parse_rfc3339, Timestamp};

#[test]
fn parses_utc_text() {
    let t = parse_rfc3339("2024-01-01T00:00:00Z").unwrap();
    assert_eq!(t.secs, 1_704_067_200);
    assert_eq!(t.nanos, 0);
}

#[test]
fn parses_offset_and_fraction() {
    let t = parse_rfc3339("2024-01-01T09:00:00.250+09:00").unwrap();
    assert_eq!(t.secs, 1_704_067_200);
    assert_eq!(t.nanos, 250_000_000);
}

#[test]
fn rejects_malformed_text() {
    assert_eq!(parse_rfc3339("not a date"), None);
    assert_eq!(parse_rfc3339("2024-13-01T00:00:00Z"), None);
    assert_eq!(parse_rfc3339(""), None);
}

#[test]
fn formats_utc_text() {
    let text = format_rfc3339(Timestamp { secs: 1_704_067_200, nanos: 0 });
    assert_eq!(text, "2024-01-01T00:00:00+00:00");
}

#[test]
fn formats_fraction_and_reads_back() {
    let t = Timestamp { secs: 1_704_067_200, nanos: 123_456_789 };
    let text = format_rfc3339(t);
    assert_eq!(text, "2024-01-01T00:00:00.123456789+00:00");
    assert_eq!(parse_rfc3339(&text), Some(t));
}

#[test]
fn formats_instant_before_epoch() {
    let t = Timestamp { secs: -1, nanos: 500_000_000 };
    let text = format_rfc3339(t);
    assert_eq!(text, "1969-12-31T23:59:59.500+00:00");
    assert_eq!(parse_rfc3339(&text), Some(t));
}

#[test]
fn normalizes_total_nanoseconds() {
    let t = Timestamp::from_total_nanos(-1);
    assert_eq!(t, Timestamp { secs: -1, nanos: 999_999_999 });
    assert_eq!(t.total_nanos(), -1);
    let u = Timestamp { secs: 2, nanos: 1_500_000_000 };
    assert_eq!(u.total_nanos(), 3_500_000_000);
}

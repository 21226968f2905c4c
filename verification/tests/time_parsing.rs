use cloud_logging::errors::LogQueryError;
use cloud_logging::time::TimeParser;

fn parsed_unix_seconds(rendered: &str) -> i64 {
    chrono::DateTime::parse_from_rfc3339(rendered)
        .expect("rendered timestamp parses back")
        .timestamp()
}

#[test]
fn test_parse_relative_time() {
    let parser = TimeParser::new();

    // Test valid relative times
    assert!(parser.parse("1h").is_ok());
    assert!(parser.parse("2d").is_ok());
    assert!(parser.parse("30m").is_ok());

    // Ensure format is clean (ends with Z, not +00:00)
    let result = parser.parse("1h").unwrap();
    assert!(result.ends_with('Z'));
}

#[test]
fn test_parse_absolute_time() {
    let parser = TimeParser::new();
    let timestamp = "2026-01-15T00:00:00Z";

    assert_eq!(parser.parse(timestamp).unwrap(), timestamp);
}

#[test]
fn test_parse_invalid_time() {
    let parser = TimeParser::new();

    assert!(parser.parse("invalid").is_err());
    assert!(parser.parse("1x").is_err());
}

#[test]
fn test_parse_absolute_time_with_offset_kept_verbatim() {
    let parser = TimeParser::new();
    let timestamp = "2026-01-15T10:30:00+05:00";
    assert_eq!(parser.parse(timestamp).unwrap(), timestamp);
}

#[test]
fn test_parse_relative_instant_is_before_now() {
    let parser = TimeParser::new();
    for (expr, offset) in [("1h", 3600i64), ("30m", 1800), ("2d", 172800)] {
        let before = chrono::Utc::now().timestamp();
        let rendered = parser.parse(expr).unwrap();
        let after = chrono::Utc::now().timestamp();
        let ts = parsed_unix_seconds(&rendered);
        assert!(before - offset <= ts && ts <= after - offset);
        assert!(ts < after);
        assert_eq!(rendered.chars().count(), 20);
        assert!(rendered.ends_with('Z'));
        assert!(!rendered.contains('.'));
        assert!(!rendered.contains("+00:00"));
    }
}

#[test]
fn test_parse_relative_zero_amount_is_now() {
    let parser = TimeParser::new();
    let before = chrono::Utc::now().timestamp();
    let rendered = parser.parse("0m").unwrap();
    let after = chrono::Utc::now().timestamp();
    let ts = parsed_unix_seconds(&rendered);
    assert!(before <= ts && ts <= after);
}

#[test]
fn test_parse_leading_zeros_accepted() {
    let parser = TimeParser::new();
    let before = chrono::Utc::now().timestamp();
    let rendered = parser.parse("0001h").unwrap();
    let after = chrono::Utc::now().timestamp();
    let ts = parsed_unix_seconds(&rendered);
    assert!(before - 3600 <= ts && ts <= after - 3600);
}

#[test]
fn test_parse_rejects_near_misses() {
    let parser = TimeParser::new();
    for bad in ["", "h", "m", "d", "1", "1.5h", "1h2", "h1", "- 1h", "-1h", "1H", "10s", "1hh"] {
        assert!(parser.parse(bad).is_err(), "expected rejection of {:?}", bad);
    }
}

#[test]
fn test_parse_rejects_offset_past_epoch() {
    let parser = TimeParser::new();
    // An offset reaching before 1970 cannot be rendered.
    assert!(parser.parse("99999999d").is_err());
    // An amount past u64 is likewise rejected, not mangled.
    assert!(parser.parse("99999999999999999999999m").is_err());
}

#[test]
fn test_parse_error_carries_input_and_grammars() {
    let parser = TimeParser::new();
    let err = parser.parse("invalid").unwrap_err();
    match &err {
        LogQueryError::InvalidTimeFormat { expr } => assert_eq!(expr, "invalid"),
        other => panic!("expected InvalidTimeFormat, got {:?}", other),
    }
    assert_eq!(
        err.message(),
        "Invalid time format: invalid. Use RFC3339 (e.g., '2026-01-15T00:00:00Z') or relative (e.g., '1h', '2d')"
    );
}

use cloud_logging::formatter::{JsonLogFormatter, LogFormatter, TextLogFormatter};
use cloud_logging::models::{LogEntry, Resource};

fn empty_entry() -> LogEntry {
    LogEntry {
        log_name: None,
        resource: None,
        timestamp: None,
        receive_timestamp: None,
        severity: None,
        insert_id: None,
        trace: None,
        span_id: None,
        trace_sampled: None,
        text_payload: None,
        json_payload: None,
        proto_payload: None,
    }
}

#[test]
fn test_text_format_empty_sentinel() {
    let formatter = TextLogFormatter::new();
    assert_eq!(formatter.format(&vec![]), "No logs found matching the criteria.");
}

#[test]
fn test_text_format_one_entry_exact() {
    let entry = LogEntry {
        log_name: Some("projects/p/logs/app".to_string()),
        resource: Some(Resource {
            resource_type: Some("k8s_pod".to_string()),
            labels: Some(vec![
                ("cluster".to_string(), "c1".to_string()),
                ("pod".to_string(), "p1".to_string()),
            ]),
        }),
        timestamp: Some("2026-01-15T10:00:00Z".to_string()),
        severity: Some("ERROR".to_string()),
        text_payload: Some("boom".to_string()),
        ..empty_entry()
    };
    let formatter = TextLogFormatter::new();
    assert_eq!(
        formatter.format(&vec![entry]),
        "Found 1 log entries:\n\n\
         === Log Entry 1 ===\n\
         Timestamp: 2026-01-15T10:00:00Z\n\
         Severity: ERROR\n\
         Log Name: projects/p/logs/app\n\
         Resource Type: k8s_pod\n\
         Resource Labels:\n\
         \x20 cluster: c1\n\
         \x20 pod: p1\n\
         Text Payload: boom\n\n"
    );
}

#[test]
fn test_text_format_numbers_entries_and_omits_absent_fields() {
    let first = LogEntry { timestamp: Some("2026-01-15T10:00:00Z".to_string()), ..empty_entry() };
    let second = LogEntry {
        json_payload: Some("{\n  \"k\": 1\n}".to_string()),
        ..empty_entry()
    };
    let formatter = TextLogFormatter::new();
    let out = formatter.format(&vec![first, second]);
    assert!(out.starts_with("Found 2 log entries:\n\n"));
    assert!(out.contains("=== Log Entry 1 ===\nTimestamp: 2026-01-15T10:00:00Z\n"));
    assert!(out.contains("=== Log Entry 2 ===\nJSON Payload:\n{\n  \"k\": 1\n}\n"));
    assert!(!out.contains("Severity:"));
    assert!(!out.contains("Log Name:"));
    assert!(!out.contains("Text Payload:"));
}

#[test]
fn test_json_format_empty_list() {
    let formatter = JsonLogFormatter::new();
    assert_eq!(formatter.format(&vec![]), "[]");
}

#[test]
fn test_json_format_entry_exact() {
    let entry = LogEntry {
        log_name: Some("l".to_string()),
        resource: Some(Resource {
            resource_type: Some("k8s_pod".to_string()),
            labels: Some(vec![("a".to_string(), "b".to_string())]),
        }),
        timestamp: Some("2026-01-15T10:00:00Z".to_string()),
        trace_sampled: Some(true),
        text_payload: Some("a\"b\nc".to_string()),
        json_payload: Some("{\"k\":1}".to_string()),
        ..empty_entry()
    };
    let formatter = JsonLogFormatter::new();
    assert_eq!(
        formatter.format(&vec![entry]),
        "[{\"logName\":\"l\",\
           \"resource\":{\"type\":\"k8s_pod\",\"labels\":{\"a\":\"b\"}},\
           \"timestamp\":\"2026-01-15T10:00:00Z\",\
           \"traceSampled\":true,\
           \"textPayload\":\"a\\\"b\\nc\",\
           \"jsonPayload\":{\"k\":1}}]"
    );
}

#[test]
fn test_json_format_escapes_control_characters() {
    let entry = LogEntry { text_payload: Some("x\u{1}y\\z\t".to_string()), ..empty_entry() };
    let formatter = JsonLogFormatter::new();
    assert_eq!(
        formatter.format(&vec![entry]),
        "[{\"textPayload\":\"x\\u0001y\\\\z\\t\"}]"
    );
}

#[test]
fn test_json_format_round_trips_through_a_json_parser() {
    let entry = LogEntry {
        log_name: Some("quoted \" name".to_string()),
        severity: Some("WARNING".to_string()),
        trace_sampled: Some(false),
        json_payload: Some("{\"nested\":[1,2,3]}".to_string()),
        ..empty_entry()
    };
    let formatter = JsonLogFormatter::new();
    let rendered = formatter.format(&vec![entry]);
    let value: serde_json::Value = serde_json::from_str(&rendered).expect("valid JSON");
    assert_eq!(value[0]["logName"], "quoted \" name");
    assert_eq!(value[0]["severity"], "WARNING");
    assert_eq!(value[0]["traceSampled"], false);
    assert_eq!(value[0]["jsonPayload"]["nested"][1], 2);
}

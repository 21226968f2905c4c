use cloud_logging::errors::LogQueryError;
use cloud_logging::filters::FilterBuilder;
use cloud_logging::request::ListLogsRequest;

fn base_request() -> ListLogsRequest {
    ListLogsRequest {
        project_id: "test-project".to_string(),
        resource_type: None,
        log_name: None,
        namespace: None,
        pod_name: None,
        severity: None,
        since: None,
        until: None,
        limit: 20,
        order: "desc".to_string(),
    }
}

#[test]
fn test_filter_with_all_fields() {
    let req = ListLogsRequest {
        project_id: "test-project".to_string(),
        resource_type: Some("k8s_pod".to_string()),
        log_name: Some("policy-action".to_string()),
        namespace: Some("default".to_string()),
        pod_name: Some("my-pod".to_string()),
        severity: Some("ERROR".to_string()),
        since: Some("1h".to_string()),
        until: None,
        limit: 50,
        order: "desc".to_string(),
    };

    let builder = FilterBuilder::new(&req);
    let filter = builder.build().unwrap();

    assert!(filter.contains("resource.type=\"k8s_pod\""));
    assert!(filter.contains("severity>=\"ERROR\""));
    assert!(filter.contains("logName:\"policy-action\""));
}

#[test]
fn test_filter_absolute_times_exact() {
    let mut req = base_request();
    req.since = Some("2026-01-15T00:00:00Z".to_string());
    req.until = Some("2026-01-16T00:00:00Z".to_string());
    req.resource_type = Some("k8s_pod".to_string());
    req.log_name = Some("policy-action".to_string());
    req.severity = Some("warning".to_string());
    req.namespace = Some("default".to_string());
    req.pod_name = Some("my-pod".to_string());

    let filter = FilterBuilder::new(&req).build().unwrap();
    assert_eq!(
        filter,
        "timestamp>=\"2026-01-15T00:00:00Z\" AND timestamp<=\"2026-01-16T00:00:00Z\" \
         AND resource.type=\"k8s_pod\" AND logName:\"policy-action\" AND severity>=\"WARNING\" \
         AND jsonPayload.src.namespace=\"default\" AND jsonPayload.src.pod_name:\"my-pod\""
    );
}

#[test]
fn test_filter_defaults_to_last_24_hours() {
    let req = base_request();
    let before = chrono::Utc::now().timestamp();
    let filter = FilterBuilder::new(&req).build().unwrap();
    let after = chrono::Utc::now().timestamp();

    assert!(filter.starts_with("timestamp>=\""));
    assert_eq!(filter.matches("timestamp>=").count(), 1);
    let rendered = &filter["timestamp>=\"".len()..filter.len() - 1];
    let ts = chrono::DateTime::parse_from_rfc3339(rendered).unwrap().timestamp();
    assert!(before - 86400 <= ts && ts <= after - 86400);
}

#[test]
fn test_filter_exactly_one_lower_bound_with_since() {
    let mut req = base_request();
    req.since = Some("2026-01-15T00:00:00Z".to_string());
    let filter = FilterBuilder::new(&req).build().unwrap();
    assert_eq!(filter, "timestamp>=\"2026-01-15T00:00:00Z\"");
}

#[test]
fn test_filter_clause_order_is_fixed() {
    let mut req = base_request();
    req.since = Some("2026-01-15T00:00:00Z".to_string());
    req.until = Some("2026-01-16T00:00:00Z".to_string());
    req.resource_type = Some("gce_instance".to_string());
    req.log_name = Some("syslog".to_string());
    req.severity = Some("info".to_string());
    req.namespace = Some("kube-system".to_string());
    req.pod_name = Some("api".to_string());

    let filter = FilterBuilder::new(&req).build().unwrap();
    let positions: Vec<usize> = [
        "timestamp>=\"",
        "timestamp<=\"",
        "resource.type=\"",
        "logName:\"",
        "severity>=\"",
        "jsonPayload.src.namespace=\"",
        "jsonPayload.src.pod_name:\"",
    ]
    .iter()
    .map(|needle| filter.find(needle).expect(needle))
    .collect();
    for pair in positions.windows(2) {
        assert!(pair[0] < pair[1]);
    }
    assert_eq!(filter.matches(" AND ").count(), 6);
}

#[test]
fn test_filter_severity_case_normalized() {
    let mut req = base_request();
    req.since = Some("2026-01-15T00:00:00Z".to_string());
    req.severity = Some("error".to_string());
    let filter = FilterBuilder::new(&req).build().unwrap();
    assert!(filter.contains("severity>=\"ERROR\""));
    assert!(!filter.contains("severity>=\"error\""));
}

#[test]
fn test_filter_invalid_since_rejected() {
    let mut req = base_request();
    req.since = Some("not-a-time".to_string());
    let err = FilterBuilder::new(&req).build().unwrap_err();
    match err {
        LogQueryError::InvalidTimeFormat { expr } => assert_eq!(expr, "not-a-time"),
        other => panic!("expected InvalidTimeFormat, got {:?}", other),
    }
}

#[test]
fn test_filter_invalid_until_rejected() {
    let mut req = base_request();
    req.since = Some("2026-01-15T00:00:00Z".to_string());
    req.until = Some("later".to_string());
    let err = FilterBuilder::new(&req).build().unwrap_err();
    match err {
        LogQueryError::InvalidTimeFormat { expr } => assert_eq!(expr, "later"),
        other => panic!("expected InvalidTimeFormat, got {:?}", other),
    }
}

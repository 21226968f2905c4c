use cloud_logging::auth::GcloudAuthProvider;
use cloud_logging::errors::LogQueryError;
use cloud_logging::gcloud::{
    BackendOutput, GcloudClient, interpret_backend_output, malformed_output_error,
    stdout_is_blank,
};
use cloud_logging::request::ListLogsRequest;
use cloud_logging::retry::{RetryDecision, RetryPolicy, RetryRun};
use cloud_logging::service::{fetch_error_message, filter_error_message, plan_query};

fn base_request() -> ListLogsRequest {
    ListLogsRequest {
        project_id: "p".to_string(),
        resource_type: None,
        log_name: None,
        namespace: None,
        pod_name: None,
        severity: None,
        since: None,
        until: None,
        limit: 20,
        order: "desc".to_string(),
    }
}

#[test]
fn test_plan_query_end_to_end() {
    let mut req = base_request();
    req.severity = Some("error".to_string());
    req.since = Some("1h".to_string());

    let before = chrono::Utc::now().timestamp();
    let plan = plan_query(&req).unwrap();
    let after = chrono::Utc::now().timestamp();

    assert!(plan.filter.contains("severity>=\"ERROR\""));
    let lower_start = plan.filter.find("timestamp>=\"").unwrap();
    let rendered = &plan.filter[lower_start + "timestamp>=\"".len()..lower_start + "timestamp>=\"".len() + 20];
    let ts = chrono::DateTime::parse_from_rfc3339(rendered).unwrap().timestamp();
    assert!(before - 3600 <= ts && ts <= after - 3600);

    assert_eq!(plan.limit, 20);
    assert_eq!(plan.order, "desc");
    assert_eq!(
        plan.args,
        vec![
            "logging".to_string(),
            "read".to_string(),
            plan.filter.clone(),
            "--project".to_string(),
            "p".to_string(),
            "--limit".to_string(),
            "20".to_string(),
            "--order".to_string(),
            "desc".to_string(),
            "--format".to_string(),
            "json".to_string(),
        ]
    );
}

#[test]
fn test_plan_query_resolves_limit_and_order() {
    let mut req = base_request();
    req.limit = 500;
    req.order = "ASCENDING".to_string();
    req.since = Some("2026-01-15T00:00:00Z".to_string());
    let plan = plan_query(&req).unwrap();
    assert_eq!(plan.limit, 100);
    assert_eq!(plan.order, "asc");
    assert!(plan.args.iter().any(|a| a == "100"));
    assert!(plan.args.iter().any(|a| a == "asc"));
}

#[test]
fn test_plan_query_rejects_bad_time() {
    let mut req = base_request();
    req.since = Some("soon".to_string());
    let err = plan_query(&req).unwrap_err();
    assert!(matches!(err, LogQueryError::InvalidTimeFormat { .. }));
    assert_eq!(
        filter_error_message(&err),
        "Failed to build filter: Invalid time format: soon. Use RFC3339 \
         (e.g., '2026-01-15T00:00:00Z') or relative (e.g., '1h', '2d')"
    );
}

#[test]
fn test_client_build_args_omits_empty_filter() {
    let client = GcloudClient::new(GcloudAuthProvider::new());
    let args = client.build_args("proj", "", 100, "asc");
    assert_eq!(
        args,
        vec!["logging", "read", "--project", "proj", "--limit", "100", "--order", "asc", "--format", "json"]
    );
    let args = client.build_args("proj", "severity>=\"ERROR\"", 5, "desc");
    assert_eq!(args[2], "severity>=\"ERROR\"");
}

#[test]
fn test_interpret_backend_output() {
    match interpret_backend_output(false, "ignored".to_string(), "boom") {
        BackendOutput::Failure(LogQueryError::BackendCommandFailed { stderr }) => {
            assert_eq!(stderr, "boom")
        },
        other => panic!("expected a backend failure, got {:?}", other),
    }
    assert!(matches!(
        interpret_backend_output(true, "".to_string(), ""),
        BackendOutput::NoEntries
    ));
    assert!(matches!(
        interpret_backend_output(true, " \n\t\r ".to_string(), ""),
        BackendOutput::NoEntries
    ));
    match interpret_backend_output(true, "[{}]".to_string(), "") {
        BackendOutput::NeedsParse(s) => assert_eq!(s, "[{}]"),
        other => panic!("expected payload to parse, got {:?}", other),
    }
}

#[test]
fn test_blank_detection() {
    assert!(stdout_is_blank(""));
    assert!(stdout_is_blank("  \n\t\r"));
    assert!(!stdout_is_blank(" [] "));
    assert!(!stdout_is_blank("x"));
}

#[test]
fn test_malformed_output_message() {
    let err = malformed_output_error("expected value at line 1");
    assert_eq!(err.message(), "Failed to parse gcloud output: expected value at line 1");
}

#[test]
fn test_exhausted_fetch_surfaces_to_caller() {
    // Non-zero backend exit on every attempt: the caller sees the
    // exhaustion wrapping the last attempt's failure.
    let mut run = RetryRun::start(RetryPolicy::new(3));
    for _ in 0..2 {
        let out = interpret_backend_output(false, String::new(), "quota exceeded");
        let err = match out {
            BackendOutput::Failure(e) => e,
            other => panic!("expected a failure, got {:?}", other),
        };
        assert!(matches!(run.on_failure(err), RetryDecision::RetryAfter { .. }));
    }
    let out = interpret_backend_output(false, String::new(), "quota exceeded");
    let err = match out {
        BackendOutput::Failure(e) => e,
        other => panic!("expected a failure, got {:?}", other),
    };
    assert!(matches!(run.on_failure(err), RetryDecision::Exhausted));
    let terminal = run.into_exhausted_error();
    assert!(matches!(terminal, LogQueryError::RequestExhausted { .. }));
    assert_eq!(
        fetch_error_message(&terminal),
        "Failed to fetch logs: All retry attempts failed: gcloud command failed: quota exceeded"
    );
}

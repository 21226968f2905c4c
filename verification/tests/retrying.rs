use cloud_logging::errors::LogQueryError;
use cloud_logging::retry::{RetryDecision, RetryPolicy, RetryRun};

fn failure(tag: &str) -> LogQueryError {
    LogQueryError::BackendCommandFailed { stderr: tag.to_string() }
}

#[test]
fn test_default_policy() {
    let policy: RetryPolicy = Default::default();
    assert_eq!(policy.max_attempts, 3);
    assert_eq!(policy.base_delay_ms, 1000);
}

#[test]
fn test_backoff_doubles_without_cap() {
    let policy = RetryPolicy::new(6);
    assert_eq!(policy.backoff_delay_ms(1), 1000);
    assert_eq!(policy.backoff_delay_ms(2), 2000);
    assert_eq!(policy.backoff_delay_ms(3), 4000);
    assert_eq!(policy.backoff_delay_ms(4), 8000);
    assert_eq!(policy.backoff_delay_ms(5), 16000);
}

#[test]
fn test_success_on_third_attempt_sleeps_base_then_double() {
    // Attempts 1 and 2 fail, attempt 3 succeeds: two backoff sleeps of
    // the base delay and twice the base delay, then the caller returns
    // the third attempt's result without consulting the run again.
    let mut run = RetryRun::start(RetryPolicy::new(3));
    assert_eq!(run.current_attempt(), 1);

    let d1 = run.on_failure(failure("first"));
    assert!(matches!(d1, RetryDecision::RetryAfter { delay_ms: 1000 }));
    assert_eq!(run.current_attempt(), 2);

    let d2 = run.on_failure(failure("second"));
    assert!(matches!(d2, RetryDecision::RetryAfter { delay_ms: 2000 }));
    assert_eq!(run.current_attempt(), 3);
    // Attempt 3 succeeds here; no further decision is requested.
}

#[test]
fn test_all_attempts_failing_surfaces_last_error() {
    let mut run = RetryRun::start(RetryPolicy::new(3));
    assert!(matches!(run.on_failure(failure("first")), RetryDecision::RetryAfter { .. }));
    assert!(matches!(run.on_failure(failure("second")), RetryDecision::RetryAfter { .. }));
    let d3 = run.on_failure(failure("third"));
    assert!(matches!(d3, RetryDecision::Exhausted));

    let err = run.into_exhausted_error();
    match &err {
        LogQueryError::RequestExhausted { last } => match last.as_ref() {
            LogQueryError::BackendCommandFailed { stderr } => assert_eq!(stderr, "third"),
            other => panic!("expected the third failure, got {:?}", other),
        },
        other => panic!("expected RequestExhausted, got {:?}", other),
    }
    assert_eq!(err.message(), "All retry attempts failed: gcloud command failed: third");
}

#[test]
fn test_single_attempt_policy_exhausts_immediately() {
    let mut run = RetryRun::start(RetryPolicy::new(1));
    let d = run.on_failure(failure("only"));
    assert!(matches!(d, RetryDecision::Exhausted));
}

use cloud_logging::auth::{
    AuthProvider, GcloudAuthProvider, VerifyAction, auth_timeout_error, auth_unauthenticated_error,
    probe_args, probe_timeout_secs,
};
use cloud_logging::errors::LogQueryError;

#[test]
fn test_gate_starts_unverified_and_wants_one_probe() {
    let gate = GcloudAuthProvider::new();
    assert!(!gate.is_verified());
    assert!(matches!(gate.verify_action(), VerifyAction::Probe));
}

#[test]
fn test_gate_caches_success_and_skips_further_probes() {
    let mut gate = GcloudAuthProvider::new();
    assert!(matches!(gate.verify_action(), VerifyAction::Probe));
    gate.mark_verified();
    assert!(gate.is_verified());
    // Every later caller takes the read-only fast path: no second probe.
    assert!(matches!(gate.verify_action(), VerifyAction::AlreadyVerified));
    assert!(matches!(gate.verify_action(), VerifyAction::AlreadyVerified));
}

#[test]
fn test_probe_command_line() {
    assert_eq!(probe_args(), vec!["auth", "application-default", "print-access-token"]);
    assert_eq!(probe_timeout_secs(), 5);
}

#[test]
fn test_auth_failure_texts() {
    match auth_timeout_error() {
        LogQueryError::AuthFailed { detail } => {
            assert_eq!(detail, "gcloud auth check timed out after 5 seconds")
        },
        other => panic!("expected AuthFailed, got {:?}", other),
    }
    match auth_unauthenticated_error() {
        LogQueryError::AuthFailed { detail } => {
            assert_eq!(detail, "gcloud not authenticated. Run: gcloud auth application-default login")
        },
        other => panic!("expected AuthFailed, got {:?}", other),
    }
}

//! The cached authentication state.
//!
//! Verification is process-wide: one successful credential probe flips
//! the shared state to verified for the rest of the process; there is
//! no invalidation path.  The probe itself is a bounded-time subprocess
//! call and runs outside the library; the cached state, its read-only
//! fast path, the probe's command line, its time bound and its failure
//! texts are all decided here.  Callers racing on one shared instance
//! must hold a mutual-exclusion primitive across the read-probe-mark
//! sequence, so that at most one probe runs before the first success
//! lands.

use vstd::prelude::*;

use crate::errors::LogQueryError;

verus! {

/// The capability a backend client needs: a shared verification state
/// that can be read and, after a successful probe, durably marked.
pub trait AuthProvider {
    /// Whether a probe has already succeeded.
    spec fn spec_verified(&self) -> bool;

    /// Reads the cached state; no backend call.
    fn is_verified(&self) -> (r: bool)
        ensures
            r == self.spec_verified(),
    ;

    /// Durably records a successful probe; the state never reverts.
    fn mark_verified(&mut self)
        ensures
            final(self).spec_verified(),
    ;
}

/// What `verify` does next: nothing (already verified, the read-only
/// fast path), or one credential probe.
pub enum VerifyAction {
    AlreadyVerified,
    Probe,
}

/// The provider backed by the backend CLI's credential probe.
pub struct GcloudAuthProvider {
    pub verified: bool,
}

impl GcloudAuthProvider {
    /// A fresh provider: unverified at process start.
    pub fn new() -> (r: GcloudAuthProvider)
        ensures
            !r.spec_verified(),
    {
        GcloudAuthProvider { verified: false }
    }

    /// Law: `verify` probes exactly when the state is unverified - once
    /// one probe has succeeded, no caller issues another.
    pub fn verify_action(&self) -> (a: VerifyAction)
        ensures
            a is AlreadyVerified <==> self.spec_verified(),
            a is Probe <==> !self.spec_verified(),
    {
        if self.is_verified() {
            VerifyAction::AlreadyVerified
        } else {
            VerifyAction::Probe
        }
    }
}

impl Default for GcloudAuthProvider {
    /// A fresh, unverified provider.
    fn default() -> (r: GcloudAuthProvider)
        ensures
            !r.spec_verified(),
    {
        GcloudAuthProvider::new()
    }
}

impl AuthProvider for GcloudAuthProvider {
    open spec fn spec_verified(&self) -> bool {
        self.verified
    }

    fn is_verified(&self) -> (r: bool) {
        self.verified
    }

    fn mark_verified(&mut self) {
        self.verified = true;
    }
}

/// The credential probe's argument vector for the backend CLI.
pub fn probe_args() -> (r: Vec<String>)
    ensures
        r.deep_view() =~= seq!["auth"@, "application-default"@, "print-access-token"@],
{
    let mut args: Vec<String> = Vec::new();
    args.push(String::from_str("auth"));
    args.push(String::from_str("application-default"));
    args.push(String::from_str("print-access-token"));
    proof {
        assert(args.deep_view() =~= seq![
            "auth"@,
            "application-default"@,
            "print-access-token"@,
        ]);
    }
    args
}

/// How long the probe may run before it counts as failed, in seconds.
pub fn probe_timeout_secs() -> (r: u64)
    ensures
        r == 5,
{
    5
}

/// The failure when the probe does not finish within its time bound.
pub fn auth_timeout_error() -> (r: LogQueryError)
    ensures
        r matches LogQueryError::AuthFailed { detail } && detail@
            == "gcloud auth check timed out after 5 seconds"@,
{
    LogQueryError::AuthFailed {
        detail: String::from_str("gcloud auth check timed out after 5 seconds"),
    }
}

/// The failure when the probe exits non-zero, carrying the remediation
/// guidance.
pub fn auth_unauthenticated_error() -> (r: LogQueryError)
    ensures
        r matches LogQueryError::AuthFailed { detail } && detail@
            == "gcloud not authenticated. Run: gcloud auth application-default login"@,
{
    LogQueryError::AuthFailed {
        detail: String::from_str(
            "gcloud not authenticated. Run: gcloud auth application-default login",
        ),
    }
}

} // verus!

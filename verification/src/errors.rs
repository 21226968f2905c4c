//! Error taxonomy of the log-query core.

use vstd::prelude::*;

verus! {

/// Every failure the core can report.  Intermediate retry failures are
/// discarded; `RequestExhausted` carries only the last one observed.
#[derive(Debug)]
pub enum LogQueryError {
    /// A time expression matched neither of the two accepted grammars.
    InvalidTimeFormat { expr: String },
    /// The credential probe timed out or exited non-zero; `detail`
    /// carries the remediation guidance shown to the caller.
    AuthFailed { detail: String },
    /// The backend read command exited non-zero; `stderr` is its
    /// captured diagnostic output.
    BackendCommandFailed { stderr: String },
    /// The backend exited successfully but its output could not be
    /// parsed as a sequence of log entries.
    MalformedBackendOutput { detail: String },
    /// All retry attempts failed; `last` is the final attempt's error.
    RequestExhausted { last: Box<LogQueryError> },
}

impl LogQueryError {
    /// The caller-visible text of this error.
    pub open spec fn spec_message(self) -> Seq<char>
        decreases self,
    {
        match self {
            LogQueryError::InvalidTimeFormat { expr } =>
                "Invalid time format: "@ + expr@
                    + ". Use RFC3339 (e.g., '2026-01-15T00:00:00Z') or relative (e.g., '1h', '2d')"@,
            LogQueryError::AuthFailed { detail } => detail@,
            LogQueryError::BackendCommandFailed { stderr } =>
                "gcloud command failed: "@ + stderr@,
            LogQueryError::MalformedBackendOutput { detail } =>
                "Failed to parse gcloud output: "@ + detail@,
            LogQueryError::RequestExhausted { last } =>
                "All retry attempts failed: "@ + last.spec_message(),
        }
    }

    /// Renders the caller-visible text of this error.
    pub fn message(&self) -> (r: String)
        ensures
            r@ == self.spec_message(),
        decreases *self,
    {
        match self {
            LogQueryError::InvalidTimeFormat { expr } => {
                let mut r = String::from_str("Invalid time format: ");
                r.append(expr.as_str());
                r.append(
                    ". Use RFC3339 (e.g., '2026-01-15T00:00:00Z') or relative (e.g., '1h', '2d')",
                );
                r
            },
            LogQueryError::AuthFailed { detail } => detail.clone(),
            LogQueryError::BackendCommandFailed { stderr } => {
                let mut r = String::from_str("gcloud command failed: ");
                r.append(stderr.as_str());
                r
            },
            LogQueryError::MalformedBackendOutput { detail } => {
                let mut r = String::from_str("Failed to parse gcloud output: ");
                r.append(detail.as_str());
                r
            },
            LogQueryError::RequestExhausted { last } => {
                let mut r = String::from_str("All retry attempts failed: ");
                let inner = last.message();
                r.append(inner.as_str());
                r
            },
        }
    }
}

} // verus!

//! The backend CLI invocation: its argument vector and the reading of
//! its outcome.
//!
//! The subprocess itself runs outside the library; what to invoke, and
//! what each exit and output means, is decided here.

use vstd::prelude::*;

use crate::auth::AuthProvider;
use crate::decimal::{dec_str, u64_to_string};
use crate::errors::LogQueryError;

verus! {

/// The backend read command's argument vector: the sub-command, the
/// filter only when non-empty, then project, limit, order and the fixed
/// structured-output format.
pub open spec fn read_args_spec(
    project: Seq<char>,
    filter: Seq<char>,
    limit: u32,
    order: Seq<char>,
) -> Seq<Seq<char>> {
    seq!["logging"@, "read"@] + (if filter.len() > 0 {
        seq![filter]
    } else {
        Seq::empty()
    }) + seq![
        "--project"@,
        project,
        "--limit"@,
        dec_str(limit as nat),
        "--order"@,
        order,
        "--format"@,
        "json"@,
    ]
}

/// Builds the backend read command's argument vector.
pub fn backend_read_args(project_id: &str, filter: &str, limit: u32, order: &str) -> (r: Vec<
    String,
>)
    ensures
        r.deep_view() == read_args_spec(project_id@, filter@, limit, order@),
{
    let mut args: Vec<String> = Vec::new();
    args.push(String::from_str("logging"));
    args.push(String::from_str("read"));
    if !filter.is_empty() {
        args.push(filter.to_owned());
    }
    args.push(String::from_str("--project"));
    args.push(project_id.to_owned());
    args.push(String::from_str("--limit"));
    args.push(u64_to_string(limit as u64));
    args.push(String::from_str("--order"));
    args.push(order.to_owned());
    args.push(String::from_str("--format"));
    args.push(String::from_str("json"));
    proof {
        assert(args.deep_view() =~= read_args_spec(project_id@, filter@, limit, order@));
    }
    args
}

/// The backend client: holds the auth provider it consults before a
/// fetch.
/// The fetch's subprocess call runs outside the library; the argument
/// vector and the reading of the outcome come from here.
pub struct GcloudClient<A: AuthProvider> {
    pub auth_provider: A,
}

impl<A: AuthProvider> GcloudClient<A> {
    pub fn new(auth_provider: A) -> (r: GcloudClient<A>)
        ensures
            r == (GcloudClient { auth_provider }),
    {
        GcloudClient { auth_provider }
    }

    /// The argument vector of one fetch.
    pub fn build_args(&self, project_id: &str, filter: &str, limit: u32, order: &str) -> (r: Vec<
        String,
    >)
        ensures
            r.deep_view() == read_args_spec(project_id@, filter@, limit, order@),
    {
        backend_read_args(project_id, filter, limit, order)
    }
}

/// An ASCII whitespace character.
pub open spec fn is_ascii_space(c: char) -> bool {
    c == ' ' || c == '\t' || c == '\n' || c == '\r'
}

/// Whether a successful invocation's output counts as empty: nothing
/// but whitespace.
pub open spec fn is_blank(s: Seq<char>) -> bool {
    forall|i: int| 0 <= i < s.len() ==> is_ascii_space(#[trigger] s[i])
}

/// Decides whether `s` is blank.
pub fn stdout_is_blank(s: &str) -> (r: bool)
    ensures
        r == is_blank(s@),
{
    let n = s.unicode_len();
    let mut i: usize = 0;
    while i < n
        invariant
            n == s@.len(),
            i <= n,
            forall|j: int| 0 <= j < i ==> is_ascii_space(#[trigger] s@[j]),
        decreases n - i,
    {
        let c = s.get_char(i);
        if !(c == ' ' || c == '\t' || c == '\n' || c == '\r') {
            return false;
        }
        i = i + 1;
    }
    true
}

/// What one backend invocation's outcome means.
#[derive(Debug)]
pub enum BackendOutput {
    /// Non-zero exit: the fetch failed with the captured diagnostics.
    Failure(LogQueryError),
    /// Success with blank output: no entries matched - not an error.
    NoEntries,
    /// Success with payload: the output is to be parsed as entries.
    NeedsParse(String),
}

/// Reads one invocation's exit status and captured streams: non-zero
/// exit fails with the diagnostics, blank output is an empty result,
/// anything else is handed on for parsing.
pub fn interpret_backend_output(exit_success: bool, stdout: String, stderr: &str) -> (r:
    BackendOutput)
    ensures
        !exit_success ==> (r matches BackendOutput::Failure(e) && e matches
            LogQueryError::BackendCommandFailed { stderr: d } && d@ == stderr@),
        exit_success && is_blank(stdout@) ==> r is NoEntries,
        exit_success && !is_blank(stdout@) ==> (r matches BackendOutput::NeedsParse(s) && s@
            == stdout@),
{
    if !exit_success {
        BackendOutput::Failure(
            LogQueryError::BackendCommandFailed { stderr: stderr.to_owned() },
        )
    } else if stdout_is_blank(stdout.as_str()) {
        BackendOutput::NoEntries
    } else {
        BackendOutput::NeedsParse(stdout)
    }
}

/// The failure when a successful invocation's output cannot be parsed
/// as log entries.
pub fn malformed_output_error(detail: &str) -> (r: LogQueryError)
    ensures
        r matches LogQueryError::MalformedBackendOutput { detail: d } && d@ == detail@,
{
    LogQueryError::MalformedBackendOutput { detail: detail.to_owned() }
}

} // verus!

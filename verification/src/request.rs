//! The structured query a caller submits.

use vstd::prelude::*;

verus! {

/// Parameters of one log query.  `limit` and `order` are carried as
/// given and resolved through `effective_limit` and `normalized_order`
/// before use.
pub struct ListLogsRequest {
    /// Project identifier (required, non-empty).
    pub project_id: String,
    /// Filter by resource type (exact match).
    pub resource_type: Option<String>,
    /// Filter by log name (substring match).
    pub log_name: Option<String>,
    /// Filter by Kubernetes namespace (exact match under a fixed label path).
    pub namespace: Option<String>,
    /// Filter by pod name (substring match).
    pub pod_name: Option<String>,
    /// Severity floor (case-normalized to upper).
    pub severity: Option<String>,
    /// Start of the time range, absolute or relative.
    pub since: Option<String>,
    /// End of the time range, absolute or relative.
    pub until: Option<String>,
    /// Maximum number of entries to return.
    pub limit: u32,
    /// Sort order; anything but a spelling of ascending means descending.
    pub order: String,
}

/// The limit a request gets when it names none.
pub fn default_limit() -> (r: u32)
    ensures
        r == 20,
{
    20
}

/// The sort order a request gets when it names none.
pub fn default_order() -> (r: String)
    ensures
        r@ == "desc"@,
{
    String::from_str("desc")
}

/// A character's codepoint with an ASCII lower-case letter folded to its
/// upper-case counterpart.
pub open spec fn ci_val(c: char) -> int {
    if 97 <= c as u32 <= 122 {
        c as u32 - 32
    } else {
        c as u32 as int
    }
}

/// Equality of two strings up to ASCII case.
pub open spec fn seq_eq_ci(a: Seq<char>, b: Seq<char>) -> bool {
    a.len() == b.len() && forall|i: int| 0 <= i < a.len() ==> ci_val(#[trigger] a[i]) == ci_val(
        #[trigger] b[i],
    )
}

/// The resolved sort order: a spelling of ascending gives `asc`, every
/// other value gives `desc`.
pub open spec fn normalized_order_spec(order: Seq<char>) -> Seq<char> {
    if seq_eq_ci(order, "asc"@) || seq_eq_ci(order, "ascending"@) {
        "asc"@
    } else {
        "desc"@
    }
}

/// The resolved limit: the requested one, capped at 100.
pub open spec fn effective_limit_spec(limit: u32) -> u32 {
    if limit > 100 {
        100
    } else {
        limit
    }
}

/// Compares two strings up to ASCII case.
fn str_eq_ignore_ascii_case(a: &str, b: &str) -> (r: bool)
    ensures
        r == seq_eq_ci(a@, b@),
{
    let na = a.unicode_len();
    let nb = b.unicode_len();
    if na != nb {
        return false;
    }
    let mut i: usize = 0;
    while i < na
        invariant
            na == a@.len(),
            na == b@.len(),
            i <= na,
            forall|j: int| 0 <= j < i ==> ci_val(#[trigger] a@[j]) == ci_val(#[trigger] b@[j]),
        decreases na - i,
    {
        let va = a.get_char(i) as u32;
        let vb = b.get_char(i) as u32;
        let fa = if 97 <= va && va <= 122 {
            va - 32
        } else {
            va
        };
        let fb = if 97 <= vb && vb <= 122 {
            vb - 32
        } else {
            vb
        };
        if fa != fb {
            proof {
                assert(ci_val(a@[i as int]) != ci_val(b@[i as int]));
            }
            return false;
        }
        i = i + 1;
    }
    true
}

impl ListLogsRequest {
    /// The sort order this request resolves to: `asc` for any ASCII-case
    /// spelling of `asc` or `ascending`, otherwise `desc`.
    pub fn normalized_order(&self) -> (r: &str)
        ensures
            r@ == normalized_order_spec(self.order@),
    {
        if str_eq_ignore_ascii_case(self.order.as_str(), "asc") || str_eq_ignore_ascii_case(
            self.order.as_str(),
            "ascending",
        ) {
            "asc"
        } else {
            "desc"
        }
    }

    /// The limit this request resolves to: the requested one, silently
    /// capped at 100.
    pub fn effective_limit(&self) -> (r: u32)
        ensures
            r == effective_limit_spec(self.limit),
            r <= 100,
    {
        if self.limit > 100 {
            100
        } else {
            self.limit
        }
    }
}

} // verus!

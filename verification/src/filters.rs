//! Composition of backend filter expressions.
//!
//! A filter is an ordered conjunction of predicate clauses.  The time
//! lower bound is always present (defaulting to the last 24 hours);
//! every other clause appears exactly when the query names its field.
//! The fixed order is: time lower bound, time upper bound, resource
//! type, log name, severity, namespace, pod name.

use vstd::prelude::*;

use crate::errors::LogQueryError;
use crate::request::ListLogsRequest;
use crate::time::{
    TimeParser, formattable, is_relative_expr, parse_outcome_ok, relative_instant, rfc3339_of,
    rfc3339_valid,
};

verus! {

// ---------------------------------------------------------------------
// Severity case normalization, trusted.
// ---------------------------------------------------------------------
/// The upper-case form of a string.  The folding is done by the
/// standard library; the result depends on the characters alone.
pub uninterp spec fn upper_of(s: Seq<char>) -> Seq<char>;

/// Relies on `str::to_uppercase`: the result depends on the characters
/// alone, and an empty string stays empty.
#[verifier::external_body]
fn to_uppercase(s: &str) -> (r: String)
    ensures
        r@ == upper_of(s@),
        s@.len() == 0 ==> r@.len() == 0,
{
    s.to_uppercase()
}

// ---------------------------------------------------------------------
// The clauses, as specification.
// ---------------------------------------------------------------------
/// `timestamp>="<v>"` - the unconditional time lower bound.
pub open spec fn ts_lower_clause(v: Seq<char>) -> Seq<char> {
    "timestamp>=\""@ + v + "\""@
}

/// `timestamp<="<v>"` - the optional time upper bound.
pub open spec fn ts_upper_clause(v: Seq<char>) -> Seq<char> {
    "timestamp<=\""@ + v + "\""@
}

/// `resource.type="<v>"` - exact match.
pub open spec fn resource_type_clause(v: Seq<char>) -> Seq<char> {
    "resource.type=\""@ + v + "\""@
}

/// `logName:"<v>"` - substring match.
pub open spec fn log_name_clause(v: Seq<char>) -> Seq<char> {
    "logName:\""@ + v + "\""@
}

/// `severity>="<V>"` - severity floor, case-normalized to upper.
pub open spec fn severity_clause(v: Seq<char>) -> Seq<char> {
    "severity>=\""@ + upper_of(v) + "\""@
}

/// `jsonPayload.src.namespace="<v>"` - exact match under the fixed
/// label path.
pub open spec fn namespace_clause(v: Seq<char>) -> Seq<char> {
    "jsonPayload.src.namespace=\""@ + v + "\""@
}

/// `jsonPayload.src.pod_name:"<v>"` - substring match.
pub open spec fn pod_name_clause(v: Seq<char>) -> Seq<char> {
    "jsonPayload.src.pod_name:\""@ + v + "\""@
}

/// The resource-type and log-name clauses a query asks for.
pub open spec fn resource_clauses(req: ListLogsRequest) -> Seq<Seq<char>> {
    (if req.resource_type is Some {
        seq![resource_type_clause(req.resource_type->0@)]
    } else {
        Seq::empty()
    }) + (if req.log_name is Some {
        seq![log_name_clause(req.log_name->0@)]
    } else {
        Seq::empty()
    })
}

/// The severity clause a query asks for.
pub open spec fn severity_clauses(req: ListLogsRequest) -> Seq<Seq<char>> {
    if req.severity is Some {
        seq![severity_clause(req.severity->0@)]
    } else {
        Seq::empty()
    }
}

/// The namespace and pod-name clauses a query asks for.
pub open spec fn kubernetes_clauses(req: ListLogsRequest) -> Seq<Seq<char>> {
    (if req.namespace is Some {
        seq![namespace_clause(req.namespace->0@)]
    } else {
        Seq::empty()
    }) + (if req.pod_name is Some {
        seq![pod_name_clause(req.pod_name->0@)]
    } else {
        Seq::empty()
    })
}

/// Every clause of a query, in the fixed order, given the two resolved
/// time bounds.
pub open spec fn filter_clauses(
    req: ListLogsRequest,
    lower: Seq<char>,
    upper: Option<Seq<char>>,
) -> Seq<Seq<char>> {
    seq![ts_lower_clause(lower)] + (if upper is Some {
        seq![ts_upper_clause(upper->0)]
    } else {
        Seq::empty()
    }) + resource_clauses(req) + severity_clauses(req) + kubernetes_clauses(req)
}

/// The conjunction of `parts`, joined with ` AND `.
pub open spec fn join_and(parts: Seq<Seq<char>>) -> Seq<char>
    decreases parts.len(),
{
    if parts.len() == 0 {
        Seq::empty()
    } else if parts.len() == 1 {
        parts[0]
    } else {
        join_and(parts.drop_last()) + " AND "@ + parts.last()
    }
}

// ---------------------------------------------------------------------
// Time resolution, relative to a clock sample.
// ---------------------------------------------------------------------
/// The expression the time lower bound is parsed from: `since` when
/// given, otherwise the last 24 hours - an explicit policy, since
/// queries without a lower bound are expensive on the backend.
pub open spec fn lower_expr(req: ListLogsRequest) -> Seq<char> {
    if req.since is Some {
        req.since->0@
    } else {
        "24h"@
    }
}

/// Whether a time expression resolves at clock sample `now`.
pub open spec fn time_expr_ok(s: Seq<char>, now: int) -> bool {
    rfc3339_valid(s) || (is_relative_expr(s) && formattable(relative_instant(s, now)))
}

/// What a time expression resolves to at clock sample `now`.
pub open spec fn time_value(s: Seq<char>, now: int) -> Seq<char>
    recommends
        time_expr_ok(s, now),
{
    if rfc3339_valid(s) {
        s
    } else {
        rfc3339_of(relative_instant(s, now))
    }
}

/// What `build` returns for a query when the two time expressions are
/// parsed at clock samples `now1` (lower) and `now2` (upper): the join
/// of every clause, or the first time expression's rejection.
pub open spec fn build_outcome(
    req: ListLogsRequest,
    now1: int,
    now2: int,
    r: Result<String, LogQueryError>,
) -> bool {
    let le = lower_expr(req);
    if !time_expr_ok(le, now1) {
        r matches Err(e) && e matches LogQueryError::InvalidTimeFormat { expr } && expr@ == le
    } else if req.until is Some && !time_expr_ok(req.until->0@, now2) {
        r matches Err(e) && e matches LogQueryError::InvalidTimeFormat { expr } && expr@
            == req.until->0@
    } else {
        r matches Ok(f) && f@ == join_and(
            filter_clauses(
                req,
                time_value(le, now1),
                if req.until is Some {
                    Some(time_value(req.until->0@, now2))
                } else {
                    None
                },
            ),
        )
    }
}

// ---------------------------------------------------------------------
// The builder.
// ---------------------------------------------------------------------
/// Builder for one query's filter expression.
pub struct FilterBuilder<'a> {
    pub request: &'a ListLogsRequest,
    pub time_parser: TimeParser,
}

/// `prefix` + `value` + closing quote.
fn clause_string(prefix: &str, value: &str) -> (r: String)
    ensures
        r@ == prefix@ + value@ + "\""@,
{
    let mut s = prefix.to_owned();
    s.append(value);
    s.append("\"");
    proof {
        assert(s@ =~= prefix@ + value@ + "\""@);
    }
    s
}

impl<'a> FilterBuilder<'a> {
    pub fn new(request: &'a ListLogsRequest) -> (r: FilterBuilder<'a>)
        ensures
            r.request == request,
    {
        FilterBuilder { request, time_parser: TimeParser::new() }
    }

    /// Composes the filter.  The result joins, in the fixed order, one
    /// clause per field the query names, always including a time lower
    /// bound; it fails exactly when a given time expression resolves to
    /// nothing, with that expression's `InvalidTimeFormat`.  The two
    /// clock samples are existential: an absolute timestamp's clause
    /// does not depend on them.
    pub fn build(&self) -> (r: Result<String, LogQueryError>)
        ensures
            exists|now1: int, now2: int| build_outcome(*self.request, now1, now2, r),
            (r matches Err(e) ==> e is InvalidTimeFormat),
            (self.request.since matches Some(s) && rfc3339_valid(s@) && self.request.until
                is None) ==> (r matches Ok(f) && f@ == join_and(
                filter_clauses(*self.request, self.request.since->0@, None),
            )),
            ((self.request.since matches Some(s) && rfc3339_valid(s@)) && (self.request.until
                matches Some(u) && rfc3339_valid(u@))) ==> (r matches Ok(f) && f@ == join_and(
                filter_clauses(
                    *self.request,
                    self.request.since->0@,
                    Some(self.request.until->0@),
                ),
            )),
            (self.request.since matches Some(s) && !rfc3339_valid(s@) && !is_relative_expr(s@))
                ==> (r matches Err(e) && e matches LogQueryError::InvalidTimeFormat { expr }
                && expr@ == self.request.since->0@),
            (r matches Err(e) ==> (e matches LogQueryError::InvalidTimeFormat { expr } ==> (
            (expr@ == lower_expr(*self.request) && !rfc3339_valid(lower_expr(*self.request)))
                || (self.request.until is Some && expr@ == self.request.until->0@
                && !rfc3339_valid(self.request.until->0@))))),
    {
        let mut parts: Vec<String> = Vec::new();
        let ghost dv_init = parts.deep_view();
        proof {
            assert(dv_init =~= Seq::<Seq<char>>::empty());
        }

        let time_result = self.add_time_filters(&mut parts);
        let ghost tr = time_result;
        let ghost parts_after_time = parts.deep_view();
        match time_result {
            Err(e) => {
                proof {
                    let (now1, now2) = choose|now1: int, now2: int|
                        time_filters_outcome(
                            *self.request,
                            now1,
                            now2,
                            tr,
                            dv_init,
                            parts_after_time,
                        );
                    assert(build_outcome(
                        *self.request,
                        now1,
                        now2,
                        Err::<String, LogQueryError>(e),
                    ));
                }
                return Err(e);
            },
            Ok(()) => {},
        }
        self.add_resource_filters(&mut parts);
        self.add_severity_filter(&mut parts);
        self.add_kubernetes_filters(&mut parts);

        let joined = join_parts(&parts);
        proof {
            assert(tr is Ok);
            let (now1, now2) = choose|now1: int, now2: int|
                time_filters_outcome(*self.request, now1, now2, tr, dv_init, parts_after_time);
            assert(parts.deep_view() =~= filter_clauses(
                *self.request,
                time_value(lower_expr(*self.request), now1),
                if self.request.until is Some {
                    Some(time_value(self.request.until->0@, now2))
                } else {
                    None
                },
            ));
            assert(build_outcome(
                *self.request,
                now1,
                now2,
                Result::<String, LogQueryError>::Ok(joined),
            ));
        }
        Ok(joined)
    }

    /// Parses the expression the time lower bound comes from: `since`
    /// when given, the 24-hour default otherwise.
    fn resolve_lower(&self) -> (r: Result<String, LogQueryError>)
        ensures
            exists|now: int| parse_outcome_ok(lower_expr(*self.request), now, r),
    {
        if let Some(since) = &self.request.since {
            let r = self.time_parser.parse(since.as_str());
            proof {
                assert(since@ == lower_expr(*self.request));
                let now = choose|now: int| parse_outcome_ok(since@, now, r);
                assert(parse_outcome_ok(lower_expr(*self.request), now, r));
            }
            r
        } else {
            let r = self.time_parser.parse("24h");
            proof {
                assert("24h"@ == lower_expr(*self.request));
                let now = choose|now: int| parse_outcome_ok("24h"@, now, r);
                assert(parse_outcome_ok(lower_expr(*self.request), now, r));
            }
            r
        }
    }

    /// Appends the time lower bound (from `since`, or the 24-hour
    /// default) and, when `until` is given, the upper bound.
    fn add_time_filters(&self, parts: &mut Vec<String>) -> (r: Result<(), LogQueryError>)
        ensures
            exists|now1: int, now2: int|
                time_filters_outcome(
                    *self.request,
                    now1,
                    now2,
                    r,
                    old(parts).deep_view(),
                    final(parts).deep_view(),
                ),
            (r matches Err(e) ==> e is InvalidTimeFormat),
    {
        let lower = self.resolve_lower();
        let ghost lower_g = lower;
        let lower_ts = match lower {
            Ok(t) => t,
            Err(e) => {
                proof {
                    let now1 = choose|now: int|
                        parse_outcome_ok(lower_expr(*self.request), now, lower_g);
                    assert(time_filters_outcome(
                        *self.request,
                        now1,
                        0,
                        Result::<(), LogQueryError>::Err(e),
                        old(parts).deep_view(),
                        parts.deep_view(),
                    ));
                }
                return Err(e);
            },
        };
        proof {
            assert(lower_g == Ok::<String, LogQueryError>(lower_ts));
        }
        let ghost now1 = choose|now: int|
            parse_outcome_ok(lower_expr(*self.request), now, lower_g);
        let ghost dv0 = parts.deep_view();
        parts.push(clause_string("timestamp>=\"", lower_ts.as_str()));
        proof {
            assert(parts.deep_view() =~= dv0.push(ts_lower_clause(lower_ts@)));
        }

        if let Some(until) = &self.request.until {
            let upper = self.time_parser.parse(until.as_str());
            let ghost upper_g = upper;
            let upper_ts = match upper {
                Ok(t) => t,
                Err(e) => {
                    proof {
                        let now2 = choose|now: int|
                            parse_outcome_ok(self.request.until->0@, now, upper_g);
                        assert(time_filters_outcome(
                            *self.request,
                            now1,
                            now2,
                            Result::<(), LogQueryError>::Err(e),
                            dv0,
                            parts.deep_view(),
                        ));
                    }
                    return Err(e);
                },
            };
            proof {
                assert(upper_g == Ok::<String, LogQueryError>(upper_ts));
            }
            let ghost dv1 = parts.deep_view();
            parts.push(clause_string("timestamp<=\"", upper_ts.as_str()));
            proof {
                assert(parts.deep_view() =~= dv1.push(ts_upper_clause(upper_ts@)));
                let now2 = choose|now: int|
                    parse_outcome_ok(self.request.until->0@, now, upper_g);
                assert(parts.deep_view() =~= dv0 + seq![
                    ts_lower_clause(time_value(lower_expr(*self.request), now1)),
                ] + seq![ts_upper_clause(time_value(self.request.until->0@, now2))]);
                assert(time_filters_outcome(
                    *self.request,
                    now1,
                    now2,
                    Result::<(), LogQueryError>::Ok(()),
                    dv0,
                    parts.deep_view(),
                ));
            }
        } else {
            proof {
                assert(parts.deep_view() =~= dv0 + seq![
                    ts_lower_clause(time_value(lower_expr(*self.request), now1)),
                ] + Seq::<Seq<char>>::empty());
                assert(time_filters_outcome(
                    *self.request,
                    now1,
                    0,
                    Result::<(), LogQueryError>::Ok(()),
                    dv0,
                    parts.deep_view(),
                ));
            }
        }
        Ok(())
    }

    /// Appends the resource-type and log-name clauses the query asks
    /// for.
    fn add_resource_filters(&self, parts: &mut Vec<String>)
        ensures
            final(parts).deep_view() == old(parts).deep_view() + resource_clauses(*self.request),
    {
        let ghost dv0 = parts.deep_view();
        if let Some(rt) = &self.request.resource_type {
            parts.push(clause_string("resource.type=\"", rt.as_str()));
        }
        let ghost dv1 = parts.deep_view();
        if let Some(ln) = &self.request.log_name {
            parts.push(clause_string("logName:\"", ln.as_str()));
        }
        proof {
            assert(final(parts).deep_view() =~= dv0 + resource_clauses(*self.request));
        }
    }

    /// Appends the severity clause, case-normalized to upper, when the
    /// query asks for one.
    fn add_severity_filter(&self, parts: &mut Vec<String>)
        ensures
            final(parts).deep_view() == old(parts).deep_view() + severity_clauses(*self.request),
    {
        let ghost dv0 = parts.deep_view();
        if let Some(sev) = &self.request.severity {
            let upper = to_uppercase(sev.as_str());
            parts.push(clause_string("severity>=\"", upper.as_str()));
        }
        proof {
            assert(final(parts).deep_view() =~= dv0 + severity_clauses(*self.request));
        }
    }

    /// Appends the namespace and pod-name clauses the query asks for.
    fn add_kubernetes_filters(&self, parts: &mut Vec<String>)
        ensures
            final(parts).deep_view() == old(parts).deep_view() + kubernetes_clauses(*self.request),
    {
        let ghost dv0 = parts.deep_view();
        if let Some(ns) = &self.request.namespace {
            parts.push(clause_string("jsonPayload.src.namespace=\"", ns.as_str()));
        }
        let ghost dv1 = parts.deep_view();
        if let Some(pn) = &self.request.pod_name {
            parts.push(clause_string("jsonPayload.src.pod_name:\"", pn.as_str()));
        }
        proof {
            assert(final(parts).deep_view() =~= dv0 + kubernetes_clauses(*self.request));
        }
    }
}

/// What `add_time_filters` does to `parts` for clock samples `now1`
/// (lower bound) and `now2` (upper bound).
pub open spec fn time_filters_outcome(
    req: ListLogsRequest,
    now1: int,
    now2: int,
    r: Result<(), LogQueryError>,
    old_parts: Seq<Seq<char>>,
    new_parts: Seq<Seq<char>>,
) -> bool {
    let le = lower_expr(req);
    if !time_expr_ok(le, now1) {
        r matches Err(e) && e matches LogQueryError::InvalidTimeFormat { expr } && expr@ == le
    } else if req.until is Some && !time_expr_ok(req.until->0@, now2) {
        r matches Err(e) && e matches LogQueryError::InvalidTimeFormat { expr } && expr@
            == req.until->0@
    } else {
        r is Ok && new_parts == old_parts + seq![ts_lower_clause(time_value(le, now1))] + (
        if req.until is Some {
            seq![ts_upper_clause(time_value(req.until->0@, now2))]
        } else {
            Seq::empty()
        })
    }
}

/// Joins the parts with ` AND `.
fn join_parts(parts: &Vec<String>) -> (r: String)
    ensures
        r@ == join_and(parts.deep_view()),
{
    let mut joined = String::new();
    let n = parts.len();
    let mut i: usize = 0;
    while i < n
        invariant
            n == parts@.len(),
            i <= n,
            joined@ == join_and(parts.deep_view().take(i as int)),
        decreases n - i,
    {
        if i > 0 {
            joined.append(" AND ");
        }
        joined.append(parts[i].as_str());
        proof {
            let dv = parts.deep_view();
            assert(dv.take(i + 1).drop_last() =~= dv.take(i as int));
            assert(dv.take(i + 1).last() == dv[i as int]);
            if i == 0 {
                assert(joined@ =~= join_and(dv.take(i + 1)));
            } else {
                assert(joined@ =~= join_and(dv.take(i + 1)));
            }
        }
        i = i + 1;
    }
    proof {
        assert(parts.deep_view().take(n as int) =~= parts.deep_view());
    }
    joined
}


// ---------------------------------------------------------------------
// Shape of the composed filter.
// ---------------------------------------------------------------------
/// Whether `p` is a prefix of `s`.
pub open spec fn has_prefix(s: Seq<char>, p: Seq<char>) -> bool {
    p.len() <= s.len() && s.take(p.len() as int) == p
}

/// The position of a clause's kind in the fixed order, read off its
/// key and operator.
pub open spec fn clause_rank(c: Seq<char>) -> int {
    if has_prefix(c, "timestamp>=\""@) {
        0
    } else if has_prefix(c, "timestamp<=\""@) {
        1
    } else if has_prefix(c, "resource.type=\""@) {
        2
    } else if has_prefix(c, "logName:\""@) {
        3
    } else if has_prefix(c, "severity>=\""@) {
        4
    } else if has_prefix(c, "jsonPayload.src.namespace=\""@) {
        5
    } else if has_prefix(c, "jsonPayload.src.pod_name:\""@) {
        6
    } else {
        7
    }
}

/// A sequence that differs from `p` below `p`'s length is not prefixed
/// by `p`.
proof fn lemma_not_prefix_diff(s: Seq<char>, p: Seq<char>, d: int)
    requires
        0 <= d < p.len(),
        d < s.len(),
        s[d] != p[d],
    ensures
        !has_prefix(s, p),
{
    if has_prefix(s, p) {
        assert(s.take(p.len() as int)[d] == s[d]);
    }
}

/// Each clause constructor yields its own kind, whatever value it
/// carries, and never an empty string.
pub proof fn lemma_clause_rank_values(v: Seq<char>)
    ensures
        clause_rank(ts_lower_clause(v)) == 0,
        clause_rank(ts_upper_clause(v)) == 1,
        clause_rank(resource_type_clause(v)) == 2,
        clause_rank(log_name_clause(v)) == 3,
        clause_rank(severity_clause(v)) == 4,
        clause_rank(namespace_clause(v)) == 5,
        clause_rank(pod_name_clause(v)) == 6,
        ts_lower_clause(v).len() > 0,
        ts_upper_clause(v).len() > 0,
        resource_type_clause(v).len() > 0,
        log_name_clause(v).len() > 0,
        severity_clause(v).len() > 0,
        namespace_clause(v).len() > 0,
        pod_name_clause(v).len() > 0,
{
    reveal_strlit("timestamp>=\"");
    reveal_strlit("timestamp<=\"");
    reveal_strlit("resource.type=\"");
    reveal_strlit("logName:\"");
    reveal_strlit("severity>=\"");
    reveal_strlit("jsonPayload.src.namespace=\"");
    reveal_strlit("jsonPayload.src.pod_name:\"");
    let lo = "timestamp>=\""@;
    let up = "timestamp<=\""@;
    let rt = "resource.type=\""@;
    let ln = "logName:\""@;
    let sv = "severity>=\""@;
    let ns = "jsonPayload.src.namespace=\""@;
    let pn = "jsonPayload.src.pod_name:\""@;
    assert(ts_lower_clause(v).take(12) =~= lo);
    assert(ts_upper_clause(v).take(12) =~= up);
    assert(resource_type_clause(v).take(15) =~= rt);
    assert(log_name_clause(v).take(9) =~= ln);
    assert(severity_clause(v).take(11) =~= sv);
    assert(namespace_clause(v).take(27) =~= ns);
    assert(pod_name_clause(v).take(26) =~= pn);

    lemma_not_prefix_diff(ts_upper_clause(v), lo, 9);

    lemma_not_prefix_diff(resource_type_clause(v), lo, 0);
    lemma_not_prefix_diff(resource_type_clause(v), up, 0);

    lemma_not_prefix_diff(log_name_clause(v), lo, 0);
    lemma_not_prefix_diff(log_name_clause(v), up, 0);
    lemma_not_prefix_diff(log_name_clause(v), rt, 0);

    lemma_not_prefix_diff(severity_clause(v), lo, 0);
    lemma_not_prefix_diff(severity_clause(v), up, 0);
    lemma_not_prefix_diff(severity_clause(v), rt, 0);
    lemma_not_prefix_diff(severity_clause(v), ln, 0);

    lemma_not_prefix_diff(namespace_clause(v), lo, 0);
    lemma_not_prefix_diff(namespace_clause(v), up, 0);
    lemma_not_prefix_diff(namespace_clause(v), rt, 0);
    lemma_not_prefix_diff(namespace_clause(v), ln, 0);
    lemma_not_prefix_diff(namespace_clause(v), sv, 0);

    lemma_not_prefix_diff(pod_name_clause(v), lo, 0);
    lemma_not_prefix_diff(pod_name_clause(v), up, 0);
    lemma_not_prefix_diff(pod_name_clause(v), rt, 0);
    lemma_not_prefix_diff(pod_name_clause(v), ln, 0);
    lemma_not_prefix_diff(pod_name_clause(v), sv, 0);
    lemma_not_prefix_diff(pod_name_clause(v), ns, 16);
}

/// The clause ranks of `cs` are strictly increasing.
pub open spec fn rank_sorted(cs: Seq<Seq<char>>) -> bool {
    forall|i: int, j: int|
        0 <= i < j < cs.len() ==> clause_rank(#[trigger] cs[i]) < clause_rank(#[trigger] cs[j])
}

/// Every clause of `cs` is non-empty with a kind in `[lo, hi]`.
pub open spec fn clauses_within(cs: Seq<Seq<char>>, lo: int, hi: int) -> bool {
    forall|i: int|
        0 <= i < cs.len() ==> lo <= clause_rank(#[trigger] cs[i]) <= hi && cs[i].len() > 0
}

/// Joining a block of lower kinds with a block of higher kinds keeps
/// the ranks strictly increasing.
proof fn lemma_rank_sorted_concat(
    a: Seq<Seq<char>>,
    b: Seq<Seq<char>>,
    lo: int,
    m: int,
    hi: int,
)
    requires
        lo <= m <= hi + 1,
        rank_sorted(a),
        rank_sorted(b),
        clauses_within(a, lo, m - 1),
        clauses_within(b, m, hi),
    ensures
        rank_sorted(a + b),
        clauses_within(a + b, lo, hi),
{
    assert forall|i: int| 0 <= i < (a + b).len() implies lo <= clause_rank(#[trigger] (a + b)[i])
        <= hi && (a + b)[i].len() > 0 by {
        if i < a.len() {
            assert((a + b)[i] == a[i]);
        } else {
            assert((a + b)[i] == b[i - a.len()]);
        }
    }
    assert forall|i: int, j: int| 0 <= i < j < (a + b).len() implies clause_rank(
        #[trigger] (a + b)[i],
    ) < clause_rank(#[trigger] (a + b)[j]) by {
        if j < a.len() {
            assert((a + b)[i] == a[i] && (a + b)[j] == a[j]);
        } else if i < a.len() {
            assert((a + b)[i] == a[i] && (a + b)[j] == b[j - a.len()]);
        } else {
            assert((a + b)[i] == b[i - a.len()] && (a + b)[j] == b[j - a.len()]);
        }
    }
}

/// Law: whatever the query and the resolved time bounds, the composed
/// clause list holds exactly one time-lower-bound clause - the first -
/// its clauses stand in the fixed order (strictly increasing kinds,
/// hence no duplicates), and no clause is empty.
pub proof fn lemma_filter_shape(req: ListLogsRequest, lower: Seq<char>, upper: Option<Seq<char>>)
    ensures
        filter_clauses(req, lower, upper).len() >= 1,
        clause_rank(filter_clauses(req, lower, upper)[0]) == 0,
        forall|i: int|
            1 <= i < filter_clauses(req, lower, upper).len() ==> clause_rank(
                #[trigger] filter_clauses(req, lower, upper)[i],
            ) >= 1,
        rank_sorted(filter_clauses(req, lower, upper)),
        forall|i: int|
            0 <= i < filter_clauses(req, lower, upper).len() ==> (#[trigger] filter_clauses(
                req,
                lower,
                upper,
            )[i]).len() > 0,
{
    lemma_clause_rank_values(lower);
    if upper is Some {
        lemma_clause_rank_values(upper->0);
    }
    if req.resource_type is Some {
        lemma_clause_rank_values(req.resource_type->0@);
    }
    if req.log_name is Some {
        lemma_clause_rank_values(req.log_name->0@);
    }
    if req.severity is Some {
        lemma_clause_rank_values(req.severity->0@);
    }
    if req.namespace is Some {
        lemma_clause_rank_values(req.namespace->0@);
    }
    if req.pod_name is Some {
        lemma_clause_rank_values(req.pod_name->0@);
    }
    let s0 = seq![ts_lower_clause(lower)];
    let su: Seq<Seq<char>> = if upper is Some {
        seq![ts_upper_clause(upper->0)]
    } else {
        Seq::empty()
    };
    let rt: Seq<Seq<char>> = if req.resource_type is Some {
        seq![resource_type_clause(req.resource_type->0@)]
    } else {
        Seq::empty()
    };
    let ln: Seq<Seq<char>> = if req.log_name is Some {
        seq![log_name_clause(req.log_name->0@)]
    } else {
        Seq::empty()
    };
    let sv = severity_clauses(req);
    let ns: Seq<Seq<char>> = if req.namespace is Some {
        seq![namespace_clause(req.namespace->0@)]
    } else {
        Seq::empty()
    };
    let pn: Seq<Seq<char>> = if req.pod_name is Some {
        seq![pod_name_clause(req.pod_name->0@)]
    } else {
        Seq::empty()
    };
    assert(resource_clauses(req) == rt + ln);
    assert(kubernetes_clauses(req) == ns + pn);
    lemma_rank_sorted_concat(rt, ln, 2, 3, 3);
    lemma_rank_sorted_concat(ns, pn, 5, 6, 6);
    lemma_rank_sorted_concat(s0, su, 0, 1, 1);
    lemma_rank_sorted_concat(s0 + su, rt + ln, 0, 2, 3);
    lemma_rank_sorted_concat(s0 + su + (rt + ln), sv, 0, 4, 4);
    lemma_rank_sorted_concat(s0 + su + (rt + ln) + sv, ns + pn, 0, 5, 6);
    let cs = filter_clauses(req, lower, upper);
    assert(cs == s0 + su + (rt + ln) + sv + (ns + pn));
    assert((s0 + su)[0] == s0[0]);
    assert((s0 + su + (rt + ln))[0] == (s0 + su)[0]);
    assert((s0 + su + (rt + ln) + sv)[0] == (s0 + su + (rt + ln))[0]);
    assert(cs[0] == (s0 + su + (rt + ln) + sv)[0]);
    assert(clause_rank(cs[0]) == 0);
    assert forall|i: int| 1 <= i < cs.len() implies clause_rank(#[trigger] cs[i]) >= 1 by {
        assert(clause_rank(cs[0]) < clause_rank(cs[i]));
    }
}

} // verus!

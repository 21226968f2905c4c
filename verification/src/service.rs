//! The per-request pipeline: validate and resolve the query, compose
//! the filter, plan the backend invocation, and map failures to the
//! caller-visible message.
//!
//! A request runs Validate -> BuildFilter -> Authenticate+Fetch (under
//! the retry policy) -> Format, strictly in that order; any stage's
//! failure short-circuits and no partial result is returned.  The fetch
//! itself suspends on subprocess I/O outside the library; everything
//! the stages decide is planned and checked here.

use vstd::prelude::*;

use crate::errors::LogQueryError;
use crate::filters::{FilterBuilder, build_outcome, lower_expr};
use crate::time::rfc3339_valid;
use crate::gcloud::{backend_read_args, read_args_spec};
use crate::request::{ListLogsRequest, effective_limit_spec, normalized_order_spec};

verus! {

/// Everything one backend fetch needs, resolved from a validated
/// query: the composed filter, the argument vector, and the effective
/// limit and order.
#[derive(Debug)]
pub struct QueryPlan {
    pub filter: String,
    pub args: Vec<String>,
    pub limit: u32,
    pub order: String,
}

/// What `plan_query` returns when the query's time expressions are
/// parsed at clock samples `now1` and `now2`: a plan whose filter is
/// the composed one, whose limit and order are the resolved ones, and
/// whose argument vector is built from exactly those - or the filter
/// composition's rejection.
pub open spec fn plan_outcome(
    req: ListLogsRequest,
    now1: int,
    now2: int,
    r: Result<QueryPlan, LogQueryError>,
) -> bool {
    match r {
        Ok(p) => {
            &&& build_outcome(req, now1, now2, Ok(p.filter))
            &&& p.limit == effective_limit_spec(req.limit)
            &&& p.order@ == normalized_order_spec(req.order@)
            &&& p.args.deep_view() == read_args_spec(req.project_id@, p.filter@, p.limit, p.order@)
        },
        Err(e) => build_outcome(req, now1, now2, Err(e)),
    }
}

/// Resolves a query into a fetch plan: composes the filter (rejecting
/// a malformed time expression), resolves limit and order through the
/// query's invariants, and lays out the backend invocation.  The
/// project identifier is required to be non-empty, as the query
/// invariant demands.
pub fn plan_query(req: &ListLogsRequest) -> (r: Result<QueryPlan, LogQueryError>)
    requires
        req.project_id@.len() > 0,
    ensures
        exists|now1: int, now2: int| plan_outcome(*req, now1, now2, r),
        (r matches Err(e) ==> e is InvalidTimeFormat),
        (r matches Err(e) ==> (e matches LogQueryError::InvalidTimeFormat { expr } ==> (
        (expr@ == lower_expr(*req) && !rfc3339_valid(lower_expr(*req))) || (req.until is Some
            && expr@ == req.until->0@ && !rfc3339_valid(req.until->0@))))),
{
    let builder = FilterBuilder::new(req);
    let built = builder.build();
    let ghost built_g = built;
    let filter = match built {
        Ok(f) => f,
        Err(e) => {
            proof {
                let (now1, now2) = choose|now1: int, now2: int|
                    build_outcome(*req, now1, now2, built_g);
                assert(plan_outcome(*req, now1, now2, Err::<QueryPlan, LogQueryError>(e)));
            }
            return Err(e);
        },
    };
    proof {
        assert(built_g == Ok::<String, LogQueryError>(filter));
    }
    let limit = req.effective_limit();
    let order = req.normalized_order().to_owned();
    let args = backend_read_args(req.project_id.as_str(), filter.as_str(), limit, order.as_str());
    let plan = QueryPlan { filter, args, limit, order };
    proof {
        let (now1, now2) = choose|now1: int, now2: int| build_outcome(*req, now1, now2, built_g);
        assert(plan_outcome(*req, now1, now2, Ok::<QueryPlan, LogQueryError>(plan)));
    }
    Ok(plan)
}

/// The caller-visible message when the filter cannot be composed.
pub fn filter_error_message(e: &LogQueryError) -> (r: String)
    ensures
        r@ == "Failed to build filter: "@ + e.spec_message(),
{
    let mut r = String::from_str("Failed to build filter: ");
    let m = e.message();
    r.append(m.as_str());
    r
}

/// The caller-visible message when the fetch fails for good.
pub fn fetch_error_message(e: &LogQueryError) -> (r: String)
    ensures
        r@ == "Failed to fetch logs: "@ + e.spec_message(),
{
    let mut r = String::from_str("Failed to fetch logs: ");
    let m = e.message();
    r.append(m.as_str());
    r
}

} // verus!

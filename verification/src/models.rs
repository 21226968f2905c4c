//! Log entries as the backend returns them.

use vstd::prelude::*;

verus! {

/// The resource a log entry was emitted against: a type and a label
/// mapping, carried as ordered key-value pairs.
pub struct Resource {
    pub resource_type: Option<String>,
    pub labels: Option<Vec<(String, String)>>,
}

/// One backend-returned record.  Every field is optional; of the three
/// payloads the backend populates at most one - a plain text payload, a
/// structured payload, or an opaque protocol payload - and the entry
/// carries that possibility without enforcing it.  Structured payloads
/// are carried as their rendered JSON text: that is all the rendering
/// logic reads of them.
pub struct LogEntry {
    pub log_name: Option<String>,
    pub resource: Option<Resource>,
    pub timestamp: Option<String>,
    pub receive_timestamp: Option<String>,
    pub severity: Option<String>,
    pub insert_id: Option<String>,
    pub trace: Option<String>,
    pub span_id: Option<String>,
    pub trace_sampled: Option<bool>,
    pub text_payload: Option<String>,
    pub json_payload: Option<String>,
    pub proto_payload: Option<String>,
}

} // verus!

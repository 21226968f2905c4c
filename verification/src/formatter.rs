//! Rendering of log entries.
//!
//! Two renderers share one capability: a human-readable one (numbered
//! sections, absent fields omitted, a sentinel line for an empty
//! result) and a machine-readable one (a JSON rendering of the list).

use vstd::prelude::*;

use crate::decimal::{append_decimal, dec_str};
use crate::json::{json_format, render_entries_json};
use crate::models::{LogEntry, Resource};

verus! {

// ---------------------------------------------------------------------
// The human-readable rendering, as specification.
// ---------------------------------------------------------------------
/// A `Label: value` line for a present field, nothing for an absent
/// one.
pub open spec fn labeled_line(label: Seq<char>, v: Option<String>) -> Seq<char> {
    if v is Some {
        label + v->0@ + "\n"@
    } else {
        Seq::empty()
    }
}

/// The indented `  key: value` lines of a label mapping, in order.
pub open spec fn labels_text(pairs: Seq<(String, String)>) -> Seq<char>
    decreases pairs.len(),
{
    if pairs.len() == 0 {
        Seq::empty()
    } else {
        labels_text(pairs.drop_last()) + "  "@ + pairs.last().0@ + ": "@ + pairs.last().1@ + "\n"@
    }
}

/// The rendering of an entry's resource descriptor.
pub open spec fn resource_text(r: Option<Resource>) -> Seq<char> {
    if r is Some {
        labeled_line("Resource Type: "@, r->0.resource_type) + (if r->0.labels is Some {
            "Resource Labels:\n"@ + labels_text(r->0.labels->0@)
        } else {
            Seq::empty()
        })
    } else {
        Seq::empty()
    }
}

/// The numbered section of one entry: each present field on its own
/// labeled line, the structured payload's text under its own heading,
/// then a blank line.
pub open spec fn entry_text(e: LogEntry, number: nat) -> Seq<char> {
    "=== Log Entry "@ + dec_str(number) + " ===\n"@ + labeled_line("Timestamp: "@, e.timestamp)
        + labeled_line("Severity: "@, e.severity) + labeled_line("Log Name: "@, e.log_name)
        + resource_text(e.resource) + labeled_line("Text Payload: "@, e.text_payload) + (
    if e.json_payload is Some {
        "JSON Payload:\n"@ + e.json_payload->0@ + "\n"@
    } else {
        Seq::empty()
    }) + "\n"@
}

/// The sections of all entries, numbered from 1.
pub open spec fn entries_text(entries: Seq<LogEntry>) -> Seq<char>
    decreases entries.len(),
{
    if entries.len() == 0 {
        Seq::empty()
    } else {
        entries_text(entries.drop_last()) + entry_text(entries.last(), entries.len())
    }
}

/// The human-readable rendering: a sentinel for an empty result,
/// otherwise a count line and one numbered section per entry.
pub open spec fn text_format(entries: Seq<LogEntry>) -> Seq<char> {
    if entries.len() == 0 {
        "No logs found matching the criteria."@
    } else {
        "Found "@ + dec_str(entries.len()) + " log entries:\n\n"@ + entries_text(entries)
    }
}

// ---------------------------------------------------------------------
// The renderers.
// ---------------------------------------------------------------------
/// The one capability the service needs of a renderer.
pub trait LogFormatter {
    /// What this renderer produces for a list of entries.
    spec fn spec_format(&self, logs: Seq<LogEntry>) -> Seq<char>;

    /// Renders the entries.
    fn format(&self, logs: &Vec<LogEntry>) -> (r: String)
        ensures
            r@ == self.spec_format(logs@),
    ;
}

/// Appends a `Label: value` line when the field is present.
fn append_labeled_line(out: &mut String, label: &str, v: &Option<String>)
    ensures
        final(out)@ == old(out)@ + labeled_line(label@, *v),
{
    if let Some(s) = v {
        out.append(label);
        out.append(s.as_str());
        out.append("\n");
        proof {
            assert(out@ =~= old(out)@ + labeled_line(label@, *v));
        }
    } else {
        proof {
            assert(out@ =~= old(out)@ + labeled_line(label@, *v));
        }
    }
}

/// Appends the indented lines of a label mapping.
fn append_labels(out: &mut String, pairs: &Vec<(String, String)>)
    ensures
        final(out)@ == old(out)@ + labels_text(pairs@),
{
    let n = pairs.len();
    let mut i: usize = 0;
    while i < n
        invariant
            n == pairs@.len(),
            i <= n,
            out@ == old(out)@ + labels_text(pairs@.take(i as int)),
        decreases n - i,
    {
        let pair = &pairs[i];
        out.append("  ");
        out.append(pair.0.as_str());
        out.append(": ");
        out.append(pair.1.as_str());
        out.append("\n");
        proof {
            assert(pairs@.take(i + 1).drop_last() =~= pairs@.take(i as int));
            assert(pairs@.take(i + 1).last() == pairs@[i as int]);
            assert(out@ =~= old(out)@ + labels_text(pairs@.take(i + 1)));
        }
        i = i + 1;
    }
    proof {
        assert(pairs@.take(n as int) =~= pairs@);
    }
}

/// Appends one entry's numbered section.
#[verifier::rlimit(30)]
fn append_entry(out: &mut String, e: &LogEntry, number: u64)
    ensures
        final(out)@ == old(out)@ + entry_text(*e, number as nat),
{
    out.append("=== Log Entry ");
    append_decimal(out, number);
    out.append(" ===\n");
    let ghost after_header = out@;
    proof {
        assert(after_header =~= old(out)@ + ("=== Log Entry "@ + dec_str(number as nat)
            + " ===\n"@));
    }
    append_labeled_line(out, "Timestamp: ", &e.timestamp);
    append_labeled_line(out, "Severity: ", &e.severity);
    append_labeled_line(out, "Log Name: ", &e.log_name);
    let ghost after_lines = out@;
    if let Some(res) = &e.resource {
        append_labeled_line(out, "Resource Type: ", &res.resource_type);
        if let Some(labels) = &res.labels {
            out.append("Resource Labels:\n");
            append_labels(out, labels);
        }
        proof {
            assert(out@ =~= after_lines + resource_text(e.resource));
        }
    }
    proof {
        assert(out@ =~= after_lines + resource_text(e.resource));
    }
    append_labeled_line(out, "Text Payload: ", &e.text_payload);
    if let Some(jp) = &e.json_payload {
        out.append("JSON Payload:\n");
        out.append(jp.as_str());
        out.append("\n");
    }
    out.append("\n");
    proof {
        assert(out@ =~= old(out)@ + entry_text(*e, number as nat));
    }
}

/// The human-readable renderer.
pub struct TextLogFormatter;

impl TextLogFormatter {
    pub fn new() -> (r: TextLogFormatter) {
        TextLogFormatter
    }
}

impl LogFormatter for TextLogFormatter {
    open spec fn spec_format(&self, logs: Seq<LogEntry>) -> Seq<char> {
        text_format(logs)
    }

    fn format(&self, logs: &Vec<LogEntry>) -> (r: String) {
        let n = logs.len();
        if n == 0 {
            return String::from_str("No logs found matching the criteria.");
        }
        let mut out = String::from_str("Found ");
        append_decimal(&mut out, n as u64);
        out.append(" log entries:\n\n");
        let ghost header = out@;
        proof {
            assert(header =~= "Found "@ + dec_str(logs@.len()) + " log entries:\n\n"@);
        }
        let mut i: usize = 0;
        while i < n
            invariant
                n == logs@.len(),
                i <= n,
                header == "Found "@ + dec_str(logs@.len()) + " log entries:\n\n"@,
                out@ == header + entries_text(logs@.take(i as int)),
            decreases n - i,
        {
            append_entry(&mut out, &logs[i], (i + 1) as u64);
            proof {
                assert(logs@.take(i + 1).drop_last() =~= logs@.take(i as int));
                assert(logs@.take(i + 1).last() == logs@[i as int]);
                assert(out@ =~= header + entries_text(logs@.take(i + 1)));
            }
            i = i + 1;
        }
        proof {
            assert(logs@.take(n as int) =~= logs@);
            assert(out@ =~= text_format(logs@));
        }
        out
    }
}

/// The machine-readable renderer.
pub struct JsonLogFormatter;

impl JsonLogFormatter {
    pub fn new() -> (r: JsonLogFormatter) {
        JsonLogFormatter
    }
}

impl LogFormatter for JsonLogFormatter {
    open spec fn spec_format(&self, logs: Seq<LogEntry>) -> Seq<char> {
        json_format(logs)
    }

    fn format(&self, logs: &Vec<LogEntry>) -> (r: String) {
        render_entries_json(logs)
    }
}

} // verus!

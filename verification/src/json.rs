//! A JSON rendering of log entries, for the machine-readable
//! formatter: an array of objects, one per entry, holding exactly the
//! present fields.  String values are escaped; structured payloads,
//! carried as JSON text, are embedded as they stand.

use vstd::prelude::*;

use crate::decimal::digit_char;
use crate::models::{LogEntry, Resource};

verus! {

// ---------------------------------------------------------------------
// String escaping.
// ---------------------------------------------------------------------
/// The character of one hexadecimal digit, lower case.
pub open spec fn hex_char(d: nat) -> char
    recommends
        d < 16,
{
    if d < 10 {
        digit_char(d)
    } else if d == 10 {
        'a'
    } else if d == 11 {
        'b'
    } else if d == 12 {
        'c'
    } else if d == 13 {
        'd'
    } else if d == 14 {
        'e'
    } else {
        'f'
    }
}

/// The JSON escape of one character: quote, backslash and the named
/// control characters get a two-character escape, other control
/// characters a `\u00..` escape, everything else stands as itself.
pub open spec fn escaped_char(c: char) -> Seq<char> {
    if c == '"' {
        "\\\""@
    } else if c == '\\' {
        "\\\\"@
    } else if c == '\n' {
        "\\n"@
    } else if c == '\r' {
        "\\r"@
    } else if c == '\t' {
        "\\t"@
    } else if (c as u32) < 32 {
        "\\u00"@ + seq![hex_char((c as u32 / 16) as nat), hex_char((c as u32 % 16) as nat)]
    } else {
        seq![c]
    }
}

/// The JSON escape of a string's characters.
pub open spec fn escaped(s: Seq<char>) -> Seq<char>
    decreases s.len(),
{
    if s.len() == 0 {
        Seq::empty()
    } else {
        escaped(s.drop_last()) + escaped_char(s.last())
    }
}

/// A JSON string literal: the escaped characters in quotes.
pub open spec fn json_string(s: Seq<char>) -> Seq<char> {
    "\""@ + escaped(s) + "\""@
}

/// Appends one hexadecimal digit.
fn append_hex_digit(out: &mut String, d: u32)
    requires
        d < 16,
    ensures
        final(out)@ == old(out)@ + seq![hex_char(d as nat)],
{
    let piece: &str = if d == 0 {
        "0"
    } else if d == 1 {
        "1"
    } else if d == 2 {
        "2"
    } else if d == 3 {
        "3"
    } else if d == 4 {
        "4"
    } else if d == 5 {
        "5"
    } else if d == 6 {
        "6"
    } else if d == 7 {
        "7"
    } else if d == 8 {
        "8"
    } else if d == 9 {
        "9"
    } else if d == 10 {
        "a"
    } else if d == 11 {
        "b"
    } else if d == 12 {
        "c"
    } else if d == 13 {
        "d"
    } else if d == 14 {
        "e"
    } else {
        "f"
    };
    proof {
        reveal_strlit("0");
        reveal_strlit("1");
        reveal_strlit("2");
        reveal_strlit("3");
        reveal_strlit("4");
        reveal_strlit("5");
        reveal_strlit("6");
        reveal_strlit("7");
        reveal_strlit("8");
        reveal_strlit("9");
        reveal_strlit("a");
        reveal_strlit("b");
        reveal_strlit("c");
        reveal_strlit("d");
        reveal_strlit("e");
        reveal_strlit("f");
        assert(piece@ =~= seq![hex_char(d as nat)]);
    }
    out.append(piece);
}

/// Appends the escaped characters of `s`.
fn append_escaped(out: &mut String, s: &str)
    ensures
        final(out)@ == old(out)@ + escaped(s@),
{
    let n = s.unicode_len();
    let mut i: usize = 0;
    while i < n
        invariant
            n == s@.len(),
            i <= n,
            out@ == old(out)@ + escaped(s@.take(i as int)),
        decreases n - i,
    {
        let c = s.get_char(i);
        let v = c as u32;
        if c == '"' {
            out.append("\\\"");
        } else if c == '\\' {
            out.append("\\\\");
        } else if c == '\n' {
            out.append("\\n");
        } else if c == '\r' {
            out.append("\\r");
        } else if c == '\t' {
            out.append("\\t");
        } else if v < 32 {
            out.append("\\u00");
            append_hex_digit(out, v / 16);
            append_hex_digit(out, v % 16);
        } else {
            let piece = s.substring_char(i, i + 1);
            proof {
                assert(piece@ =~= seq![s@[i as int]]);
            }
            out.append(piece);
        }
        proof {
            assert(s@.take(i + 1).drop_last() =~= s@.take(i as int));
            assert(s@.take(i + 1).last() == s@[i as int]);
            assert(out@ =~= old(out)@ + escaped(s@.take(i + 1)));
        }
        i = i + 1;
    }
    proof {
        assert(s@.take(n as int) =~= s@);
    }
}

/// Appends `s` as a JSON string literal.
fn append_json_string(out: &mut String, s: &str)
    ensures
        final(out)@ == old(out)@ + json_string(s@),
{
    out.append("\"");
    append_escaped(out, s);
    out.append("\"");
    proof {
        assert(out@ =~= old(out)@ + json_string(s@));
    }
}

// ---------------------------------------------------------------------
// Object and array assembly.
// ---------------------------------------------------------------------
/// The members of `parts`, joined with commas.
pub open spec fn join_comma(parts: Seq<Seq<char>>) -> Seq<char>
    decreases parts.len(),
{
    if parts.len() == 0 {
        Seq::empty()
    } else if parts.len() == 1 {
        parts[0]
    } else {
        join_comma(parts.drop_last()) + ","@ + parts.last()
    }
}

/// Joins the parts with commas.
fn join_comma_parts(parts: &Vec<String>) -> (r: String)
    ensures
        r@ == join_comma(parts.deep_view()),
{
    let mut joined = String::new();
    let n = parts.len();
    let mut i: usize = 0;
    while i < n
        invariant
            n == parts@.len(),
            i <= n,
            joined@ == join_comma(parts.deep_view().take(i as int)),
        decreases n - i,
    {
        if i > 0 {
            joined.append(",");
        }
        joined.append(parts[i].as_str());
        proof {
            let dv = parts.deep_view();
            assert(dv.take(i + 1).drop_last() =~= dv.take(i as int));
            assert(dv.take(i + 1).last() == dv[i as int]);
            assert(joined@ =~= join_comma(dv.take(i + 1)));
        }
        i = i + 1;
    }
    proof {
        assert(parts.deep_view().take(n as int) =~= parts.deep_view());
    }
    joined
}

/// A `"key":"value"` member for a present string field, nothing for an
/// absent one.
pub open spec fn str_members(key: Seq<char>, v: Option<String>) -> Seq<Seq<char>> {
    if v is Some {
        seq![key + json_string(v->0@)]
    } else {
        Seq::empty()
    }
}

/// A `"key":<text>` member embedding already-rendered JSON text, for a
/// present structured field.
pub open spec fn raw_members(key: Seq<char>, v: Option<String>) -> Seq<Seq<char>> {
    if v is Some {
        seq![key + v->0@]
    } else {
        Seq::empty()
    }
}

/// The members of a label mapping: one `"key":"value"` per pair, in
/// order.
pub open spec fn label_members(pairs: Seq<(String, String)>) -> Seq<Seq<char>>
    decreases pairs.len(),
{
    if pairs.len() == 0 {
        Seq::empty()
    } else {
        label_members(pairs.drop_last()).push(
            json_string(pairs.last().0@) + ":"@ + json_string(pairs.last().1@),
        )
    }
}

/// The members of a resource descriptor's object.
pub open spec fn resource_members(r: Resource) -> Seq<Seq<char>> {
    str_members("\"type\":"@, r.resource_type) + (if r.labels is Some {
        seq!["\"labels\":{"@ + join_comma(label_members(r.labels->0@)) + "}"@]
    } else {
        Seq::empty()
    })
}

/// The members of one entry's object: exactly the present fields.
pub open spec fn entry_members(e: LogEntry) -> Seq<Seq<char>> {
    str_members("\"logName\":"@, e.log_name) + (if e.resource is Some {
        seq!["\"resource\":{"@ + join_comma(resource_members(e.resource->0)) + "}"@]
    } else {
        Seq::empty()
    }) + str_members("\"timestamp\":"@, e.timestamp) + str_members(
        "\"receiveTimestamp\":"@,
        e.receive_timestamp,
    ) + str_members("\"severity\":"@, e.severity) + str_members("\"insertId\":"@, e.insert_id)
        + str_members("\"trace\":"@, e.trace) + str_members("\"spanId\":"@, e.span_id) + (
    if e.trace_sampled is Some {
        if e.trace_sampled->0 {
            seq!["\"traceSampled\":true"@]
        } else {
            seq!["\"traceSampled\":false"@]
        }
    } else {
        Seq::empty()
    }) + str_members("\"textPayload\":"@, e.text_payload) + raw_members(
        "\"jsonPayload\":"@,
        e.json_payload,
    ) + raw_members("\"protoPayload\":"@, e.proto_payload)
}

/// One entry's object.
pub open spec fn entry_json(e: LogEntry) -> Seq<char> {
    "{"@ + join_comma(entry_members(e)) + "}"@
}

/// The objects of all entries, in order.
pub open spec fn entry_objects(entries: Seq<LogEntry>) -> Seq<Seq<char>>
    decreases entries.len(),
{
    if entries.len() == 0 {
        Seq::empty()
    } else {
        entry_objects(entries.drop_last()).push(entry_json(entries.last()))
    }
}

/// The machine-readable rendering: a JSON array of the entries'
/// objects (`[]` for an empty result).
pub open spec fn json_format(entries: Seq<LogEntry>) -> Seq<char> {
    "["@ + join_comma(entry_objects(entries)) + "]"@
}

/// Pushes `key` + the quoted value when the field is present.
fn push_str_member(members: &mut Vec<String>, key: &str, v: &Option<String>)
    ensures
        final(members).deep_view() == old(members).deep_view() + str_members(key@, *v),
{
    let ghost dv0 = members.deep_view();
    if let Some(s) = v {
        let mut m = key.to_owned();
        append_json_string(&mut m, s.as_str());
        members.push(m);
    }
    proof {
        assert(members.deep_view() =~= dv0 + str_members(key@, *v));
    }
}

/// Pushes `key` + the embedded JSON text when the field is present.
fn push_raw_member(members: &mut Vec<String>, key: &str, v: &Option<String>)
    ensures
        final(members).deep_view() == old(members).deep_view() + raw_members(key@, *v),
{
    let ghost dv0 = members.deep_view();
    if let Some(s) = v {
        let mut m = key.to_owned();
        m.append(s.as_str());
        members.push(m);
    }
    proof {
        assert(members.deep_view() =~= dv0 + raw_members(key@, *v));
    }
}

/// Renders a label mapping's object body.
fn labels_object_body(pairs: &Vec<(String, String)>) -> (r: String)
    ensures
        r@ == join_comma(label_members(pairs@)),
{
    let mut members: Vec<String> = Vec::new();
    let n = pairs.len();
    let mut i: usize = 0;
    while i < n
        invariant
            n == pairs@.len(),
            i <= n,
            members.deep_view() == label_members(pairs@.take(i as int)),
        decreases n - i,
    {
        let pair = &pairs[i];
        let mut m = String::new();
        append_json_string(&mut m, pair.0.as_str());
        m.append(":");
        append_json_string(&mut m, pair.1.as_str());
        members.push(m);
        proof {
            assert(pairs@.take(i + 1).drop_last() =~= pairs@.take(i as int));
            assert(pairs@.take(i + 1).last() == pairs@[i as int]);
            assert(m@ =~= json_string(pairs@[i as int].0@) + ":"@ + json_string(
                pairs@[i as int].1@,
            ));
            assert(members.deep_view() =~= label_members(pairs@.take(i + 1)));
        }
        i = i + 1;
    }
    proof {
        assert(pairs@.take(n as int) =~= pairs@);
    }
    join_comma_parts(&members)
}

/// Renders one entry's object.
#[verifier::rlimit(50)]
fn render_entry(e: &LogEntry) -> (r: String)
    ensures
        r@ == entry_json(*e),
{
    let mut members: Vec<String> = Vec::new();
    push_str_member(&mut members, "\"logName\":", &e.log_name);
    if let Some(res) = &e.resource {
        let mut rm: Vec<String> = Vec::new();
        push_str_member(&mut rm, "\"type\":", &res.resource_type);
        let ghost rm_mid = rm.deep_view();
        if let Some(labels) = &res.labels {
            let mut m = String::from_str("\"labels\":{");
            let body = labels_object_body(labels);
            m.append(body.as_str());
            m.append("}");
            rm.push(m);
        }
        proof {
            assert(rm.deep_view() =~= resource_members(e.resource->0));
        }
        let mut m = String::from_str("\"resource\":{");
        let body = join_comma_parts(&rm);
        m.append(body.as_str());
        m.append("}");
        members.push(m);
    }
    let ghost dv_resource = members.deep_view();
    proof {
        assert(dv_resource =~= str_members("\"logName\":"@, e.log_name) + (
        if e.resource is Some {
            seq!["\"resource\":{"@ + join_comma(resource_members(e.resource->0)) + "}"@]
        } else {
            Seq::empty()
        }));
    }
    push_str_member(&mut members, "\"timestamp\":", &e.timestamp);
    push_str_member(&mut members, "\"receiveTimestamp\":", &e.receive_timestamp);
    push_str_member(&mut members, "\"severity\":", &e.severity);
    push_str_member(&mut members, "\"insertId\":", &e.insert_id);
    push_str_member(&mut members, "\"trace\":", &e.trace);
    push_str_member(&mut members, "\"spanId\":", &e.span_id);
    let ghost dv_ids = members.deep_view();
    if let Some(ts) = &e.trace_sampled {
        if *ts {
            members.push(String::from_str("\"traceSampled\":true"));
        } else {
            members.push(String::from_str("\"traceSampled\":false"));
        }
    }
    proof {
        assert(members.deep_view() =~= dv_ids + (if e.trace_sampled is Some {
            if e.trace_sampled->0 {
                seq!["\"traceSampled\":true"@]
            } else {
                seq!["\"traceSampled\":false"@]
            }
        } else {
            Seq::<Seq<char>>::empty()
        }));
    }
    push_str_member(&mut members, "\"textPayload\":", &e.text_payload);
    push_raw_member(&mut members, "\"jsonPayload\":", &e.json_payload);
    push_raw_member(&mut members, "\"protoPayload\":", &e.proto_payload);
    proof {
        assert(members.deep_view() =~= entry_members(*e));
    }
    let mut out = String::from_str("{");
    let body = join_comma_parts(&members);
    out.append(body.as_str());
    out.append("}");
    proof {
        assert(out@ =~= entry_json(*e));
    }
    out
}

/// Renders the entries as a JSON array.
pub fn render_entries_json(logs: &Vec<LogEntry>) -> (r: String)
    ensures
        r@ == json_format(logs@),
{
    let mut objects: Vec<String> = Vec::new();
    let n = logs.len();
    let mut i: usize = 0;
    while i < n
        invariant
            n == logs@.len(),
            i <= n,
            objects.deep_view() == entry_objects(logs@.take(i as int)),
        decreases n - i,
    {
        objects.push(render_entry(&logs[i]));
        proof {
            assert(logs@.take(i + 1).drop_last() =~= logs@.take(i as int));
            assert(logs@.take(i + 1).last() == logs@[i as int]);
            assert(objects.deep_view() =~= entry_objects(logs@.take(i + 1)));
        }
        i = i + 1;
    }
    proof {
        assert(logs@.take(n as int) =~= logs@);
    }
    let mut out = String::from_str("[");
    let body = join_comma_parts(&objects);
    out.append(body.as_str());
    out.append("]");
    proof {
        assert(out@ =~= json_format(logs@));
    }
    out
}

} // verus!

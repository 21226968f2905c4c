//! Normalization of time expressions.
//!
//! A time expression is either an absolute RFC 3339 timestamp, which is
//! returned unchanged, or a relative offset `<digits><unit>` with unit
//! `m`, `h` or `d`, which is resolved against the current instant and
//! rendered as a second-resolution UTC timestamp.  Every other string is
//! rejected with `InvalidTimeFormat`.

use vstd::prelude::*;

use crate::errors::LogQueryError;

verus! {

// ---------------------------------------------------------------------
// The relative-offset grammar `^(\d+)(m|h|d)$`, as specification.
// ---------------------------------------------------------------------
/// An ASCII decimal digit.
pub open spec fn is_digit(c: char) -> bool {
    48 <= c as u32 && c as u32 <= 57
}

/// The numeric value of one ASCII digit.
pub open spec fn digit_val(c: char) -> nat
    recommends
        is_digit(c),
{
    (c as u32 - 48) as nat
}

/// The value of a digit string, most significant digit first.
pub open spec fn digits_val(s: Seq<char>) -> nat
    decreases s.len(),
{
    if s.len() == 0 {
        0
    } else {
        digits_val(s.drop_last()) * 10 + digit_val(s.last())
    }
}

/// A relative-offset unit: minute, hour or day.
pub open spec fn is_time_unit(c: char) -> bool {
    c == 'm' || c == 'h' || c == 'd'
}

/// How many seconds one unit spans.
pub open spec fn unit_seconds(c: char) -> nat
    recommends
        is_time_unit(c),
{
    if c == 'm' {
        60
    } else if c == 'h' {
        3600
    } else {
        86400
    }
}

/// Whether `s` matches the relative-offset grammar: one or more digits
/// followed by a single unit letter.
pub open spec fn is_relative_expr(s: Seq<char>) -> bool {
    &&& s.len() >= 2
    &&& is_time_unit(s.last())
    &&& forall|i: int| 0 <= i < s.len() - 1 ==> is_digit(#[trigger] s[i])
}

/// The amount in a relative offset (the digits before the unit).
pub open spec fn rel_amount(s: Seq<char>) -> nat
    recommends
        is_relative_expr(s),
{
    digits_val(s.drop_last())
}

/// The span of a relative offset, in seconds.
pub open spec fn rel_offset_seconds(s: Seq<char>) -> nat
    recommends
        is_relative_expr(s),
{
    rel_amount(s) * unit_seconds(s.last())
}

/// The instant a relative offset names when resolved against `now`.
pub open spec fn relative_instant(s: Seq<char>, now: int) -> int
    recommends
        is_relative_expr(s),
{
    now - rel_offset_seconds(s)
}

/// Whether an instant lies in the range the renderer covers: from the
/// epoch up to (not including) year 10000.
pub open spec fn formattable(ts: int) -> bool {
    0 <= ts < 253402300800
}

// ---------------------------------------------------------------------
// Trusted view of the calendar library.
// ---------------------------------------------------------------------
/// Whether a string is a syntactically valid RFC 3339 timestamp.  The
/// grammar is decided by the calendar library; validity depends on the
/// characters alone.
pub uninterp spec fn rfc3339_valid(s: Seq<char>) -> bool;

/// Relies on chrono's `DateTime::parse_from_rfc3339`: it accepts or
/// rejects a string on its characters alone.
#[verifier::external_body]
fn is_rfc3339_timestamp(s: &str) -> (r: bool)
    ensures
        r == rfc3339_valid(s@),
{
    chrono::DateTime::parse_from_rfc3339(s).is_ok()
}

/// Relies on chrono's `Utc::now`: the current instant in non-leap
/// seconds since the Unix epoch.  Nothing is promised of the result;
/// callers state what holds whatever the clock returns.
#[verifier::external_body]
fn current_unix_seconds() -> (r: i64) {
    chrono::Utc::now().timestamp()
}

/// The canonical rendering of an instant: second resolution, `Z` UTC
/// marker (`2026-01-26T09:24:54Z`).  The text depends on the instant
/// alone.
pub uninterp spec fn rfc3339_of(ts: int) -> Seq<char>;

/// Relies on chrono's `DateTime::from_timestamp` and
/// `to_rfc3339_opts(SecondsFormat::Secs, true)`: an instant between the
/// epoch and year 10000 renders as the 20 characters
/// `YYYY-MM-DDTHH:MM:SSZ` - no sub-second fraction, `Z` marker.
#[verifier::external_body]
fn format_unix_seconds(ts: i64) -> (r: String)
    requires
        formattable(ts as int),
    ensures
        r@ == rfc3339_of(ts as int),
        r@.len() == 20,
        r@[19] == 'Z',
        forall|i: int| 0 <= i < 20 ==> #[trigger] r@[i] != '.',
{
    let dt = chrono::DateTime::<chrono::Utc>::from_timestamp(ts, 0).unwrap();
    dt.to_rfc3339_opts(chrono::SecondsFormat::Secs, true)
}

// ---------------------------------------------------------------------
// The parser.
// ---------------------------------------------------------------------
/// What `parse` returns for input `s` when the clock reads `now`:
/// a valid absolute timestamp is returned unchanged; a relative offset
/// naming a renderable instant is resolved and rendered; everything
/// else fails with `InvalidTimeFormat` carrying the input.
pub open spec fn parse_outcome_ok(s: Seq<char>, now: int, r: Result<String, LogQueryError>) -> bool {
    if rfc3339_valid(s) {
        r matches Ok(t) && t@ == s
    } else if is_relative_expr(s) && formattable(relative_instant(s, now)) {
        r matches Ok(t) && t@ == rfc3339_of(relative_instant(s, now))
    } else {
        r matches Err(e) && e matches LogQueryError::InvalidTimeFormat { expr } && expr@ == s
    }
}

/// Parser for time expressions.
pub struct TimeParser;

impl TimeParser {
    pub fn new() -> (r: TimeParser) {
        TimeParser
    }

    /// Normalizes `time_str` against the clock.  `now` is sampled once
    /// per call.  The result relates to the input and that sample as
    /// `parse_outcome_ok` states; in particular a valid absolute
    /// timestamp comes back unchanged, every string outside both
    /// grammars fails with `InvalidTimeFormat`, and a rendered relative
    /// offset is 20 characters ending in `Z` with no sub-second
    /// fraction.
    pub fn parse(&self, time_str: &str) -> (r: Result<String, LogQueryError>)
        ensures
            exists|now: int| parse_outcome_ok(time_str@, now, r),
            rfc3339_valid(time_str@) ==> (r matches Ok(t) && t@ == time_str@),
            !rfc3339_valid(time_str@) && !is_relative_expr(time_str@) ==> (r matches Err(e)
                && e matches LogQueryError::InvalidTimeFormat { expr } && expr@ == time_str@),
            (r matches Err(e) ==> e is InvalidTimeFormat),
            !rfc3339_valid(time_str@) ==> (r matches Ok(t) ==> t@.len() == 20 && t@[19] == 'Z'
                && (forall|i: int| 0 <= i < 20 ==> #[trigger] t@[i] != '.')),
    {
        let now = current_unix_seconds();
        let r = self.parse_with_now(time_str, now);
        proof {
            assert(parse_outcome_ok(time_str@, now as int, r));
        }
        r
    }

    /// The deterministic core of `parse`: the same normalization with
    /// the clock sample passed in.
    pub fn parse_with_now(&self, time_str: &str, now: i64) -> (r: Result<String, LogQueryError>)
        ensures
            parse_outcome_ok(time_str@, now as int, r),
            (r matches Err(e) ==> e is InvalidTimeFormat),
            !rfc3339_valid(time_str@) ==> (r matches Ok(t) ==> t@.len() == 20 && t@[19] == 'Z'
                && (forall|i: int| 0 <= i < 20 ==> #[trigger] t@[i] != '.')),
    {
        if is_rfc3339_timestamp(time_str) {
            return Ok(time_str.to_owned());
        }
        let n = time_str.unicode_len();
        if n < 2 {
            return Err(invalid_time_error(time_str));
        }
        let unit = time_str.get_char(n - 1);
        if !(unit == 'm' || unit == 'h' || unit == 'd') {
            return Err(invalid_time_error(time_str));
        }
        let unit_secs: u64 = if unit == 'm' {
            60
        } else if unit == 'h' {
            3600
        } else {
            86400
        };
        proof {
            assert(time_str@.last() == unit);
            assert(unit_secs == unit_seconds(time_str@.last()));
        }

        // Scan the digits, tracking overflow past u64 without stopping,
        // so that a non-digit anywhere still classifies the string.
        let mut amount: u64 = 0;
        let mut too_big: bool = false;
        let ghost digits = time_str@.drop_last();
        proof {
            assert(digits =~= time_str@.take(n - 1));
        }
        let mut i: usize = 0;
        while i < n - 1
            invariant
                2 <= n == time_str@.len(),
                i <= n - 1,
                !rfc3339_valid(time_str@),
                is_time_unit(time_str@.last()),
                unit_secs == unit_seconds(time_str@.last()),
                digits == time_str@.take(n - 1),
                forall|j: int| 0 <= j < i ==> is_digit(#[trigger] time_str@[j]),
                !too_big ==> amount == digits_val(digits.take(i as int)),
                too_big ==> digits_val(digits.take(i as int)) > u64::MAX,
            decreases n - 1 - i,
        {
            let c = time_str.get_char(i);
            let v = c as u32;
            if !(48 <= v && v <= 57) {
                proof {
                    assert(!is_digit(time_str@[i as int]));
                    assert(!is_relative_expr(time_str@));
                }
                return Err(invalid_time_error(time_str));
            }
            let d: u64 = (v - 48) as u64;
            proof {
                assert(digits.take(i + 1).drop_last() =~= digits.take(i as int));
                assert(digits.take(i + 1).last() == time_str@[i as int]);
                assert(digits_val(digits.take(i + 1)) == digits_val(digits.take(i as int)) * 10
                    + digit_val(time_str@[i as int]));
            }
            if too_big {
                proof {
                    let prev = digits_val(digits.take(i as int));
                    assert(digits_val(digits.take(i + 1)) >= prev * 10);
                }
            } else {
                let wide: u128 = (amount as u128) * 10 + (d as u128);
                if wide > u64::MAX as u128 {
                    too_big = true;
                } else {
                    amount = wide as u64;
                }
            }
            i = i + 1;
        }
        proof {
            assert(digits.take((n - 1) as int) =~= digits);
        }

        if too_big {
            // An amount past u64::MAX names an instant before the epoch
            // for any clock value an i64 can hold.
            proof {
                let s = time_str@;
                assert(is_relative_expr(s));
                assert(rel_offset_seconds(s) >= rel_amount(s)) by (nonlinear_arith)
                    requires
                        rel_offset_seconds(s) == rel_amount(s) * unit_seconds(s.last()),
                        unit_seconds(s.last()) >= 1,
                        rel_amount(s) >= 0,
                ;
                assert(!formattable(relative_instant(s, now as int)));
            }
            return Err(invalid_time_error(time_str));
        }

        proof {
            assert(is_relative_expr(time_str@));
            assert(rel_amount(time_str@) == amount);
            assert((amount as int) * (unit_secs as int) <= 0xffffffffffffffffi128 * 86400)
                by (nonlinear_arith)
                requires
                    amount <= u64::MAX,
                    unit_secs <= 86400,
            ;
        }
        let offset: u128 = (amount as u128) * (unit_secs as u128);
        let instant: i128 = (now as i128) - (offset as i128);
        proof {
            assert(instant == relative_instant(time_str@, now as int));
        }
        if 0 <= instant && instant < 253402300800 {
            let rendered = format_unix_seconds(instant as i64);
            Ok(rendered)
        } else {
            Err(invalid_time_error(time_str))
        }
    }
}

/// The rejection for a string outside both grammars, carrying the
/// original input.
fn invalid_time_error(s: &str) -> (r: LogQueryError)
    ensures
        r matches LogQueryError::InvalidTimeFormat { expr } && expr@ == s@,
{
    LogQueryError::InvalidTimeFormat { expr: s.to_owned() }
}

/// A relative offset of at least one unit always resolves to an instant
/// strictly before the clock sample; one of amount zero resolves to the
/// sample itself.
pub proof fn lemma_relative_instant_before_now(s: Seq<char>, now: int)
    requires
        is_relative_expr(s),
    ensures
        relative_instant(s, now) <= now,
        rel_amount(s) >= 1 ==> relative_instant(s, now) < now,
{
    assert(rel_offset_seconds(s) == rel_amount(s) * unit_seconds(s.last()));
    if rel_amount(s) >= 1 {
        assert(rel_amount(s) * unit_seconds(s.last()) >= 1 * 60) by (nonlinear_arith)
            requires
                rel_amount(s) >= 1,
                unit_seconds(s.last()) >= 60,
        ;
    } else {
        assert(rel_amount(s) * unit_seconds(s.last()) >= 0);
    }
}

} // verus!

//! The `.last-check.json` sidecar: when the analyzer release was last looked
//! up, and which tag that found. Its schema is
//! `{ "tag": "v0.1.4", "at_ms": 1700000000000 }`.

use vstd::prelude::*;
use crate::json::{
    json_number_member, json_parse, json_string_member, json_text_member, json_u64_member, parse_json,
};
use crate::text::{decimal_string, digit_text, opt_text, spec_decimal, spec_digit};

verus! {

/// File name of the sidecar, next to the downloaded analyzer directories.
pub const LAST_CHECK_FILE: &'static str = ".last-check.json";

/// How long a release lookup stays fresh: one day, in milliseconds.
pub const UPDATE_CHECK_INTERVAL_MS: u128 = 86_400_000;

/// The last release lookup: the tag it found, if any, and when it happened
/// (milliseconds since the Unix epoch).
#[derive(Clone, Debug, PartialEq, Eq)]
pub struct LastCheck {
    pub tag: Option<String>,
    pub at_ms: u128,
}

/// Whether a lookup made at `at_ms` is due to be repeated at `now_ms`: it is
/// more than a day old, or the clock went backwards since.
pub open spec fn spec_is_stale(at_ms: int, now_ms: int) -> bool {
    now_ms < at_ms || now_ms - at_ms > UPDATE_CHECK_INTERVAL_MS
}

/// Whether a lookup made at `at_ms` is due to be repeated at `now_ms`.
pub fn is_stale(at_ms: u128, now_ms: u128) -> (res: bool)
    ensures
        res == spec_is_stale(at_ms as int, now_ms as int),
{
    now_ms < at_ms || now_ms - at_ms > UPDATE_CHECK_INTERVAL_MS
}

/// The record read from a sidecar's `tag` and `at_ms` members: a missing or
/// non-string tag reads as no tag, and a missing or non-`u64` time as 0.
pub fn last_check_from_fields(tag: Option<&str>, at_ms: Option<u64>) -> (res: LastCheck)
    ensures
        opt_text(res.tag) == (match tag { Some(t) => Some(t@), None => None::<Seq<char>> }),
        res.at_ms == (match at_ms { Some(n) => n as int, None => 0int }),
{
    let tag = match tag {
        Some(t) => Some(String::from_str(t)),
        None => None,
    };
    let at_ms: u128 = match at_ms {
        Some(n) => n as u128,
        None => 0,
    };
    LastCheck { tag, at_ms }
}

/// The sidecar record that a JSON document describes: its `tag` member's
/// text (none unless it is a string), and its `at_ms` member (0 unless it is a
/// number that fits in a `u64`).
pub open spec fn spec_record(document: serde_json::Value) -> (Option<Seq<char>>, int) {
    (
        json_text_member(document, "tag"@),
        match json_number_member(document, "at_ms"@) {
            Some(n) => n as int,
            None => 0int,
        },
    )
}

/// Reads a sidecar's text: `None` when it is not one JSON document, else the
/// record that the document describes (see `spec_record`).
pub fn parse_last_check(body: &str) -> (res: Option<LastCheck>)
    ensures
        match json_parse(body@) {
            Some(document) => res matches Some(c) && (opt_text(c.tag), c.at_ms as int) == spec_record(document),
            None => res is None,
        },
        res matches Some(c) ==> c.at_ms <= u64::MAX,
{
    let value = match parse_json(body) {
        Some(v) => v,
        None => return None,
    };
    let tag = json_string_member(&value, "tag");
    let at_ms = json_u64_member(&value, "at_ms");
    Some(last_check_from_fields(tag, at_ms))
}

/// A lowercase hexadecimal digit.
pub open spec fn spec_hex_digit(d: nat) -> Seq<char> {
    if d < 10 {
        spec_digit(d)
    } else if d == 10 {
        "a"@
    } else if d == 11 {
        "b"@
    } else if d == 12 {
        "c"@
    } else if d == 13 {
        "d"@
    } else if d == 14 {
        "e"@
    } else {
        "f"@
    }
}

/// One character as it stands inside a JSON string: quotes and backslashes
/// are escaped, control characters get their short escape or `\u00XX`,
/// anything else stands as it is.
pub open spec fn spec_json_escape_char(c: char) -> Seq<char> {
    if c == '"' {
        "\\\""@
    } else if c == '\\' {
        "\\\\"@
    } else if c == '\n' {
        "\\n"@
    } else if c == '\r' {
        "\\r"@
    } else if c == '\t' {
        "\\t"@
    } else if c == '\u{8}' {
        "\\b"@
    } else if c == '\u{c}' {
        "\\f"@
    } else if (c as u32) < 0x20 {
        "\\u00"@ + spec_hex_digit((c as u32 / 16) as nat) + spec_hex_digit((c as u32 % 16) as nat)
    } else {
        seq![c]
    }
}

/// The characters of `s`, each as it stands inside a JSON string.
pub open spec fn spec_json_escape(s: Seq<char>) -> Seq<char>
    decreases s.len(),
{
    if s.len() == 0 {
        Seq::empty()
    } else {
        spec_json_escape(s.drop_last()) + spec_json_escape_char(s.last())
    }
}

/// The JSON string literal for `s`.
pub open spec fn spec_json_string(s: Seq<char>) -> Seq<char> {
    "\""@ + spec_json_escape(s) + "\""@
}

fn hex_digit(d: u32) -> (res: &'static str)
    requires
        d < 16,
    ensures
        res@ == spec_hex_digit(d as nat),
{
    if d < 10 {
        digit_text(d as u128)
    } else if d == 10 {
        "a"
    } else if d == 11 {
        "b"
    } else if d == 12 {
        "c"
    } else if d == 13 {
        "d"
    } else if d == 14 {
        "e"
    } else {
        "f"
    }
}

/// Renders `s` as a JSON string literal.
pub fn json_string(s: &str) -> (res: String)
    ensures
        res@ == spec_json_string(s@),
{
    let n = s.unicode_len();
    let mut out = String::from_str("\"");
    let mut i: usize = 0;
    while i < n
        invariant
            n == s@.len(),
            i <= n,
            out@ == "\""@ + spec_json_escape(s@.take(i as int)),
        decreases n - i,
    {
        let c = s.get_char(i);
        let ghost before = out@;
        if c == '"' {
            out.append("\\\"");
        } else if c == '\\' {
            out.append("\\\\");
        } else if c == '\n' {
            out.append("\\n");
        } else if c == '\r' {
            out.append("\\r");
        } else if c == '\t' {
            out.append("\\t");
        } else if c == '\u{8}' {
            out.append("\\b");
        } else if c == '\u{c}' {
            out.append("\\f");
        } else if (c as u32) < 0x20 {
            let code = c as u32;
            out.append("\\u00");
            out.append(hex_digit(code / 16));
            out.append(hex_digit(code % 16));
        } else {
            out.append(s.substring_char(i, i + 1));
            assert(s@.subrange(i as int, i + 1) =~= seq![c]);
        }
        proof {
            assert(s@.take(i + 1).drop_last() =~= s@.take(i as int));
            assert(s@.take(i + 1).last() == c);
            assert(out@ =~= before + spec_json_escape_char(c));
        }
        i = i + 1;
    }
    assert(s@.take(n as int) =~= s@);
    out.append("\"");
    out
}

/// The sidecar's text for a record: `{"tag":T,"at_ms":N}`, with `T` the tag
/// as a JSON string (or `null`) and `N` the time in decimal.
pub open spec fn spec_last_check_json(tag: Option<Seq<char>>, at_ms: nat) -> Seq<char> {
    "{\"tag\":"@ + match tag {
        Some(t) => spec_json_string(t),
        None => "null"@,
    } + ",\"at_ms\":"@ + spec_decimal(at_ms) + "}"@
}

/// Renders the sidecar's text for a record.
pub fn last_check_json(check: &LastCheck) -> (res: String)
    ensures
        res@ == spec_last_check_json(opt_text(check.tag), check.at_ms as nat),
{
    let tag_repr = match &check.tag {
        Some(t) => json_string(t.as_str()),
        None => String::from_str("null"),
    };
    let mut body = String::from_str("{\"tag\":");
    body.append(tag_repr.as_str());
    body.append(",\"at_ms\":");
    body.append(decimal_string(check.at_ms).as_str());
    body.append("}");
    body
}

} // verus!

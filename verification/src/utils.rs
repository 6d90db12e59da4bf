//! Small formatting functions.

use crate::text::chain;
use crate::time::{chrono_strftime, plain_pattern, strftime_text, Timestamp};
use vstd::prelude::*;
use vstd::string::*;
use vstd::utf8::*;

verus! {

/// The pretty-printed form that `serde_json` writes for the value that the JSON
/// text `json` holds: one member or element a line, indented by two spaces.
/// `None` where `json` is no JSON text.
pub uninterp spec fn json_pretty_text(json: Seq<char>) -> Option<Seq<char>>;

/// Pretty-prints a JSON text.
///
/// Trusted: stands for `serde_json::to_string_pretty` on the `serde_json::Value`
/// that `serde_json::from_str` reads from the text. The result depends on the
/// text alone; it is `None` where either of the two reports an error.
#[verifier::external_body]
pub(crate) fn json_pretty(json: &str) -> (r: Option<String>)
    ensures
        r.deep_view() == json_pretty_text(json@),
{
    match serde_json::from_str::<serde_json::Value>(json) {
        Ok(value) => match serde_json::to_string_pretty(&value) {
            Ok(text) => Some(text),
            Err(_) => None,
        },
        Err(_) => None,
    }
}

/// What is shown for a payload whose pretty-printed form is `pretty`: that form,
/// or an empty object where there is none.
pub open spec fn shown_json(pretty: Option<Seq<char>>) -> Seq<char> {
    match pretty {
        Some(text) => text,
        None => "{}"@,
    }
}

/// What is shown for a payload, given its pretty-printed form.
pub fn json_or_empty(pretty: Option<String>) -> (r: String)
    ensures
        r@ == shown_json(pretty.deep_view()),
{
    match pretty {
        Some(text) => text,
        None => String::from_str("{}"),
    }
}

/// The pretty-printed form of the JSON text `value`, or `{}` where it has none.
pub fn format_json_pretty(value: &str) -> (r: String)
    ensures
        r@ == shown_json(json_pretty_text(value@)),
{
    json_or_empty(json_pretty(value))
}

/// The text of `timestamp` under the strftime-style pattern `format`, or `None`
/// where the calendar has no date for the instant or the pattern cannot be
/// written.
pub fn format_timestamp(timestamp: &Timestamp, format: &str) -> (r: Option<String>)
    ensures
        r.deep_view() == strftime_text(timestamp.secs, timestamp.nanos, format@),
        r is Some ==> timestamp.is_instant(),
        timestamp.is_instant() && plain_pattern(format@) ==> r is Some,
{
    chrono_strftime(timestamp.secs, timestamp.nanos, format)
}

/// Where a text that is longer than `max_len` bytes is cut: three bytes before
/// `max_len`, which leaves room for the dots that mark the cut.
pub open spec fn cut_at(max_len: usize) -> int {
    if max_len >= 3 {
        max_len - 3
    } else {
        0
    }
}

/// The text `s` held to `max_len` bytes of UTF-8: `s` itself where it is no
/// longer, else its first `cut_at(max_len)` bytes followed by three dots.
pub open spec fn truncated(s: Seq<char>, max_len: usize) -> Seq<char> {
    let bytes = encode_utf8(s);
    if bytes.len() <= max_len {
        s
    } else {
        decode_utf8(bytes.subrange(0, cut_at(max_len))) + "..."@
    }
}

/// Holds `s` to `max_len` bytes. A text that is longer is cut and marked with
/// three dots; the cut must not fall inside a character.
pub fn truncate_string(s: &str, max_len: usize) -> (r: String)
    requires
        s.spec_bytes().len() > max_len ==> is_char_boundary(s.spec_bytes(), cut_at(max_len)),
    ensures
        r@ == truncated(s@, max_len),
{
    if s.as_bytes().len() <= max_len {
        s.to_owned()
    } else {
        let cut: usize = if max_len >= 3 {
            max_len - 3
        } else {
            0
        };
        let (head, _) = s.split_at(cut);
        proof {
            encode_utf8_decode_utf8(head@);
        }
        chain(head, "...")
    }
}

} // verus!

//! Calls into `serde_json` (and `Debug` formatting of `str`) on plain values.
//!
//! Each function here is trusted: Verus believes its contract without
//! reading its body. The contracts name the results; what the names hold
//! for given inputs is decided by the outside code.

use vstd::prelude::*;

verus! {

/// Whether `text` parses as one JSON document.
pub uninterp spec fn json_parses(text: Seq<char>) -> bool;

/// The string at JSON pointer `pointer` inside the document `text`; `None`
/// when `text` does not parse, nothing sits at `pointer`, or what sits there
/// is not a JSON string.
pub uninterp spec fn json_string_at(text: Seq<char>, pointer: Seq<char>) -> Option<Seq<char>>;

/// The Rust string that the JSON document `text` encodes, when `text` is a
/// single JSON string literal.
pub uninterp spec fn json_string_literal(text: Seq<char>) -> Option<Seq<char>>;

/// The pretty-printed JSON object with the given keys, a `None` value
/// standing for JSON `null`.
pub uninterp spec fn json_pretty_object(entries: Seq<(Seq<char>, Option<Seq<char>>)>) -> Option<
    Seq<char>,
>;

/// The pretty-printed JSON array of the given strings.
pub uninterp spec fn json_pretty_string_array(items: Seq<Seq<char>>) -> Option<Seq<char>>;

/// The `Debug` rendering of a string: quoted, with escapes.
pub uninterp spec fn debug_quoted(s: Seq<char>) -> Seq<char>;

/// Whether `text` parses as JSON.
///
/// Trusted: `serde_json::from_str::<serde_json::Value>(text).is_ok()`; the
/// contract only names the result.
#[verifier::external_body]
pub fn parses_as_json(text: &str) -> (r: bool)
    ensures
        r == json_parses(text@),
{
    serde_json::from_str::<serde_json::Value>(text).is_ok()
}

/// The string at JSON pointer `pointer` in the document `text`.
///
/// Trusted: parses `text` with `serde_json::from_str::<serde_json::Value>`,
/// looks the pointer up with `Value::pointer` and reads it with
/// `Value::as_str`; the contract names the result and states that nothing is
/// found in a text that does not parse.
#[verifier::external_body]
pub fn string_at_pointer(text: &str, pointer: &str) -> (r: Option<String>)
    ensures
        match r {
            Some(s) => json_string_at(text@, pointer@) == Some(s@),
            None => json_string_at(text@, pointer@) is None,
        },
        r is Some ==> json_parses(text@),
{
    let value: serde_json::Value = serde_json::from_str(text).ok()?;
    value.pointer(pointer).and_then(serde_json::Value::as_str).map(str::to_string)
}

/// The string that the JSON literal `text` encodes.
///
/// Trusted: `serde_json::from_str::<String>(text).ok()`; the contract only
/// names the result.
#[verifier::external_body]
pub fn decode_json_string(text: &str) -> (r: Option<String>)
    ensures
        match r {
            Some(s) => json_string_literal(text@) == Some(s@),
            None => json_string_literal(text@) is None,
        },
{
    serde_json::from_str::<String>(text).ok()
}

/// The entries as a pretty-printed JSON object.
///
/// Trusted: builds a `serde_json::Map` from the entries (a `None` value as
/// `Value::Null`) and calls `serde_json::to_string_pretty` on it; the
/// contract only names the result.
#[verifier::external_body]
pub fn pretty_json_object(entries: &Vec<(String, Option<String>)>) -> (r: Option<String>)
    ensures
        match r {
            Some(s) => json_pretty_object(entry_views(entries@)) == Some(s@),
            None => json_pretty_object(entry_views(entries@)) is None,
        },
{
    let mut map = serde_json::Map::new();
    for (key, value) in entries {
        let v = value.clone().map_or(serde_json::Value::Null, serde_json::Value::String);
        map.insert(key.clone(), v);
    }
    serde_json::to_string_pretty(&serde_json::Value::Object(map)).ok()
}

pub open spec fn entry_views(e: Seq<(String, Option<String>)>) -> Seq<(Seq<char>, Option<Seq<char>>)> {
    e.map_values(|p: (String, Option<String>)| (p.0@, crate::chat::opt_view(p.1)))
}

/// The strings as a pretty-printed JSON array.
///
/// Trusted: `serde_json::to_string_pretty(items).ok()`; the contract only
/// names the result.
#[verifier::external_body]
pub fn pretty_json_strings(items: &[String]) -> (r: Option<String>)
    ensures
        match r {
            Some(s) => json_pretty_string_array(crate::text::string_views(items@)) == Some(s@),
            None => json_pretty_string_array(crate::text::string_views(items@)) is None,
        },
{
    serde_json::to_string_pretty(items).ok()
}

/// The `Debug` rendering of `s`.
///
/// Trusted: `format!("{s:?}")`; the contract only names the result.
#[verifier::external_body]
pub fn debug_string(s: &str) -> (r: String)
    ensures
        r@ == debug_quoted(s@),
{
    format!("{s:?}")
}

} // verus!

//! The two JSON operations the adapters need: reading a string member out of
//! a document, and writing a string as a JSON literal.

use vstd::prelude::*;
use vstd::string::*;

verus! {

/// The string stored under `key` in the JSON object written in `doc`, as
/// `serde_json` reads it. `None` when `doc` is not valid JSON, is not an
/// object, has no such member, or the member is not a string.
pub uninterp spec fn json_string_member(doc: Seq<char>, key: Seq<char>) -> Option<Seq<char>>;

/// The JSON string literal that `serde_json` writes for `text`: the text
/// between double quotes, with the escapes JSON asks for.
pub uninterp spec fn json_string_literal(text: Seq<char>) -> Seq<char>;

/// Parses `doc` with `serde_json::from_str` into a `serde_json::Value` and
/// looks `key` up with `Value::get`.
///
/// Trusted: the result is taken to be a function of the two texts alone, named
/// [`json_string_member`]. Nothing more is claimed of it.
#[verifier::external_body]
pub(crate) fn string_member(doc: &str, key: &str) -> (r: Option<String>)
    ensures
        match r {
            Some(s) => json_string_member(doc@, key@) == Some(s@),
            None => json_string_member(doc@, key@) is None,
        },
{
    let parsed: Result<serde_json::Value, serde_json::Error> = serde_json::from_str(doc);
    match parsed {
        Ok(value) => match value.get(key) {
            Some(serde_json::Value::String(s)) => Some(s.clone()),
            _ => None,
        },
        Err(_) => None,
    }
}

/// Writes `text` as a JSON string through the `Display` impl of
/// `serde_json::Value`, which prints the compact form.
///
/// Trusted: the result is taken to be a function of the text alone, named
/// [`json_string_literal`]. Nothing more is claimed of it.
#[verifier::external_body]
pub(crate) fn string_literal(text: &str) -> (r: String)
    ensures
        r@ == json_string_literal(text@),
{
    serde_json::Value::String(text.to_string()).to_string()
}

/// One member of a JSON object, `"key":value`, where `value` is already JSON
/// text and `key` needs no escaping.
pub open spec fn member_text(key: Seq<char>, value: Seq<char>) -> Seq<char> {
    "\""@ + key + "\":"@ + value
}

/// Builds `"key":value`.
pub fn member(key: &str, value: &str) -> (r: String)
    ensures
        r@ == member_text(key@, value@),
{
    let mut out = String::from_str("\"");
    out.append(key);
    out.append("\":");
    out.append(value);
    out
}

} // verus!

//! The JSON values the library builds and reads, through `serde_json`.

use vstd::prelude::*;

verus! {

/// The JSON object `serde_json` builds from string pairs: each key bound to its value as a
/// JSON string, a later pair overriding an earlier one with the same key.
pub uninterp spec fn json_string_object(entries: Seq<(Seq<char>, Seq<char>)>) -> serde_json::Value;

/// The string at `key` of a JSON object, when the value is an object holding a string there.
pub uninterp spec fn json_str_at(v: serde_json::Value, key: Seq<char>) -> Option<Seq<char>>;

/// The value at `key` of a JSON object, when the value is an object holding that key.
pub uninterp spec fn json_at(v: serde_json::Value, key: Seq<char>) -> Option<serde_json::Value>;

/// The pairs of a list of string pairs, as character sequences.
pub open spec fn pairs_view(entries: Seq<(String, String)>) -> Seq<(Seq<char>, Seq<char>)> {
    entries.map_values(|e: (String, String)| (e.0@, e.1@))
}

/// Builds a JSON object of strings (`serde_json::Value::Object` of `Value::String`s).
#[verifier::external_body]
pub(crate) fn make_json_string_object(entries: Vec<(String, String)>) -> (r: serde_json::Value)
    ensures
        r == json_string_object(pairs_view(entries@)),
{
    serde_json::Value::Object(
        entries.into_iter().map(|(k, v)| (k, serde_json::Value::String(v))).collect(),
    )
}

/// `serde_json::Value::get` followed by `as_str`: the string under `key`, if any.
#[verifier::external_body]
pub(crate) fn json_get_str(v: &serde_json::Value, key: &str) -> (r: Option<String>)
    ensures
        match r {
            Some(s) => json_str_at(*v, key@) == Some(s@),
            None => json_str_at(*v, key@) is None,
        },
{
    match v.get(key) {
        Some(serde_json::Value::String(s)) => Some(s.clone()),
        _ => None,
    }
}

/// `serde_json::Value::get`, cloned: the value under `key`, if any.
#[verifier::external_body]
pub(crate) fn json_get(v: &serde_json::Value, key: &str) -> (r: Option<serde_json::Value>)
    ensures
        r == json_at(*v, key@),
{
    v.get(key).cloned()
}

/// What `serde_json::from_slice` makes of the bytes: a JSON value, or the message of the
/// parse error.
pub uninterp spec fn json_parse(bytes: Seq<u8>) -> Result<serde_json::Value, Seq<char>>;

/// `serde_json::from_slice` into a `serde_json::Value`; an error is given by its message.
#[verifier::external_body]
pub(crate) fn parse_json_bytes(bytes: &[u8]) -> (r: Result<serde_json::Value, String>)
    ensures
        match r {
            Ok(v) => json_parse(bytes@) == Ok::<serde_json::Value, Seq<char>>(v),
            Err(e) => json_parse(bytes@) == Err::<serde_json::Value, Seq<char>>(e@),
        },
{
    match serde_json::from_slice::<serde_json::Value>(bytes) {
        Ok(v) => Ok(v),
        Err(e) => Err(format!("{}", e)),
    }
}

/// The RFC 3339 text of an instant given in milliseconds since the Unix epoch, as `chrono`
/// writes it, when the instant is within `chrono`'s range.
pub uninterp spec fn rfc3339_of_millis(ms: i64) -> Option<Seq<char>>;

/// `chrono::DateTime::from_timestamp_millis` followed by `to_rfc3339`.
#[verifier::external_body]
pub(crate) fn rfc3339_from_millis(ms: i64) -> (r: Option<String>)
    ensures
        match r {
            Some(s) => rfc3339_of_millis(ms) == Some(s@),
            None => rfc3339_of_millis(ms) is None,
        },
{
    chrono::DateTime::from_timestamp_millis(ms).map(|t| t.to_rfc3339())
}

} // verus!

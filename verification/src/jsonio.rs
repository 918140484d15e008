//! Trusted boundary to serde_json: parsing a chart description, re-encoding
//! it in minified form, and reading one string field out of a response body.
//!
//! Everything serde_json computes is deterministic in its text arguments, so
//! the results are given names (`json_ok`, `json_min`, `json_str_field`) that
//! the verified code's contracts speak of.

use vstd::prelude::*;

verus! {

/// Whether `serde_json::from_str::<serde_json::Value>` accepts `s`,
/// i.e. whether `s` is valid JSON.
pub uninterp spec fn json_ok(s: Seq<char>) -> bool;

/// The text that `serde_json::to_string` produces for the value that
/// `serde_json::from_str::<serde_json::Value>` parses out of `s`:
/// the minified re-encoding of a valid JSON text `s`.
pub uninterp spec fn json_min(s: Seq<char>) -> Seq<char>;

/// The string under `key` in the JSON value parsed from `s`:
/// `Some` exactly when `s` is valid JSON, its value is an object with a
/// member named `key`, and that member is a string.
pub uninterp spec fn json_str_field(s: Seq<char>, key: Seq<char>) -> Option<Seq<char>>;

/// Re-encodes a valid JSON text in serde_json's minified encoding.
///
/// Relies on `serde_json::from_str::<serde_json::Value>`, which succeeds
/// exactly on valid JSON, and `serde_json::to_string`, which re-encodes the
/// parsed value compactly and cannot fail on a `Value`; both depend on the
/// text alone, which `json_ok` and `json_min` name. The re-encoding is
/// itself valid JSON and carries no control character: the compact formatter
/// emits no whitespace of its own, and control characters inside strings are
/// always escaped. Minified text is a fixed point: it re-parses to the same
/// value and that value re-serializes to the same text. For floats this
/// needs serde_json's `float_roundtrip` feature, which Cargo.toml enables:
/// with it, parsing a float is exact, so the shortest form the serializer
/// emits parses back to the very same float.
#[verifier::external_body]
pub(crate) fn minify_json(s: &str) -> (r: Option<String>)
    ensures
        r is Some <==> json_ok(s@),
        r matches Some(m) ==> m@ == json_min(s@),
        r matches Some(m) ==> json_ok(m@),
        r matches Some(m) ==> json_min(m@) == m@,
        r matches Some(m) ==> forall|i: int| 0 <= i < m@.len() ==> (#[trigger] m@[i]) as u32 >= 0x20,
{
    match serde_json::from_str::<serde_json::Value>(s) {
        Ok(v) => Some(serde_json::to_string(&v).expect("a parsed value always serializes")),
        Err(_) => None,
    }
}

/// Reads the string member named `key` of the JSON object in `s`.
/// `Err` carries serde_json's message when `s` is not valid JSON; `Ok(None)`
/// says `s` parsed but holds no string under `key`.
///
/// Relies on `serde_json::from_str::<serde_json::Value>` (succeeds exactly on
/// valid JSON), `serde_json::Value::get` (the member under `key` when the
/// value is an object and has one, `None` otherwise) and
/// `serde_json::Value::as_str` (`Some` exactly when the member is a string).
#[verifier::external_body]
pub(crate) fn json_string_field(s: &str, key: &str) -> (r: Result<Option<String>, String>)
    ensures
        r is Ok <==> json_ok(s@),
        r matches Ok(f) ==> (f is Some <==> json_str_field(s@, key@) is Some) && (f matches Some(
            u,
        ) ==> u@ == json_str_field(s@, key@).unwrap()),
{
    match serde_json::from_str::<serde_json::Value>(s) {
        Ok(v) => Ok(v.get(key).and_then(|f| f.as_str()).map(|f| f.to_string())),
        Err(e) => Err(e.to_string()),
    }
}

} // verus!

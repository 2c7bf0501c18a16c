//! Trusted access to the `json` crate, which parses the scene description
//! text. A parsed `json::JsonValue` is opaque to the verifier; these
//! wrappers expose exactly the operations the asset extractor needs:
//! member lookup, array indexing, and conversion of leaves to plain values.

use vstd::prelude::*;

verus! {

#[verifier::external_type_specification]
#[verifier::external_body]
pub struct ExJsonValue(json::JsonValue);

/// What UTF-8 decoding a byte sequence yields: the character sequence
/// when the bytes are valid UTF-8, nothing otherwise.
pub uninterp spec fn spec_utf8_decode(bytes: Seq<u8>) -> Option<Seq<char>>;

/// Whether a character sequence parses as JSON (within the parser's
/// depth limit).
pub uninterp spec fn spec_json_parses(text: Seq<char>) -> bool;

/// Relies on `core::str::from_utf8`: `Some`, holding the decoded text,
/// exactly when the bytes are valid UTF-8.
#[verifier::external_body]
pub fn utf8_str(bytes: &[u8]) -> (r: Option<&str>)
    ensures
        r is Some <==> spec_utf8_decode(bytes@) is Some,
        r matches Some(s) ==> Some(s@) == spec_utf8_decode(bytes@),
{
    core::str::from_utf8(bytes).ok()
}

/// Relies on `json::parse`: `Some`, holding the value tree, exactly for
/// text it parses as JSON; `None` for text it rejects (malformed, or
/// nested past the parser's depth limit).
#[verifier::external_body]
pub fn json_parse(text: &str) -> (r: Option<json::JsonValue>)
    ensures
        r is Some <==> spec_json_parses(text@),
{
    json::parse(text).ok()
}

/// Relies on the `Index<&str>` impl of `json::JsonValue`: the named member
/// of an object, or the JSON null value for a missing member or a
/// non-object.
#[verifier::external_body]
pub fn json_member<'a>(v: &'a json::JsonValue, key: &str) -> (r: &'a json::JsonValue) {
    &v[key]
}

/// Relies on the `Index<usize>` impl of `json::JsonValue`: the array entry
/// at the index, or the JSON null value when out of range or not an array.
#[verifier::external_body]
pub fn json_at<'a>(v: &'a json::JsonValue, index: usize) -> (r: &'a json::JsonValue) {
    &v[index]
}

/// Relies on `json::JsonValue::is_null`.
#[verifier::external_body]
pub fn json_is_null(v: &json::JsonValue) -> (r: bool) {
    v.is_null()
}

/// Relies on `json::JsonValue::len`: the entry count of an array or
/// object, and zero for any other value.
#[verifier::external_body]
pub fn json_len(v: &json::JsonValue) -> (r: usize) {
    v.len()
}

/// Relies on `json::JsonValue::as_u64`: `Some` exactly for a number that
/// fits an unsigned 64-bit integer.
#[verifier::external_body]
pub fn json_as_u64(v: &json::JsonValue) -> (r: Option<u64>) {
    v.as_u64()
}

/// Relies on `json::JsonValue::as_f32`: `Some` exactly for a number,
/// converted to the bit pattern of its nearest 32-bit float.
#[verifier::external_body]
pub fn json_as_float_bits(v: &json::JsonValue) -> (r: Option<u32>) {
    v.as_f32().map(|x| bytemuck::cast(x))
}

/// Relies on `json::JsonValue::as_str` and `str::to_owned`: `Some` exactly
/// for a string value, copied out.
#[verifier::external_body]
pub fn json_as_string(v: &json::JsonValue) -> (r: Option<String>) {
    v.as_str().map(|s| s.to_owned())
}

} // verus!

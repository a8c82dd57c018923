//! The trusted boundary around serde_json.
//!
//! JSON values travel through the bridge opaque: the crate never looks inside
//! a `serde_json::Value`. Inbound, one reader turns a line of text into the
//! three envelope fields as plain values; outbound, one renderer turns a
//! value into compact JSON text. What each hands back is a function of its
//! argument alone, so the results carry names (`status_of`, `json_bytes_of`,
//! ...) that the rest of the crate's contracts are exact over.

use vstd::prelude::*;

verus! {

#[verifier::external_type_specification]
#[verifier::external_body]
pub struct ExValue(serde_json::Value);

/// Whether serde_json accepts `s` as one complete JSON document. Which texts
/// it accepts depends on the text alone.
pub uninterp spec fn is_valid_json(s: Seq<char>) -> bool;

/// The text of the `status` field of the JSON document `s`: `Some` exactly
/// when `s` is an object whose `status` field is a string.
pub uninterp spec fn status_of(s: Seq<char>) -> Option<Seq<char>>;

/// Whether the JSON document `s` is an object with a `data` field (of any
/// kind, null included).
pub uninterp spec fn has_data_of(s: Seq<char>) -> bool;

/// The text of the `error` field of the JSON document `s`: `Some` exactly
/// when `s` is an object whose `error` field is a string.
pub uninterp spec fn error_of(s: Seq<char>) -> Option<Seq<char>>;

/// The compact JSON text of the value `v`, as serde_json renders it: a
/// function of the value alone.
pub uninterp spec fn json_bytes_of(v: serde_json::Value) -> Seq<u8>;

/// The view of an optional text as an optional character sequence.
pub open spec fn text_view(o: Option<String>) -> Option<Seq<char>> {
    match o {
        Some(s) => Some(s@),
        None => None,
    }
}

/// Read the three envelope fields out of one line of text, as plain values:
/// `None` when the line is not valid JSON, else the `status` and `error`
/// texts and the `data` value if the line's object has them.
///
/// Relies on serde_json::from_str::<Value> (`Ok` exactly on valid JSON
/// text), Value::get with a string key (the field of an object under that
/// key, `None` on any other value) and Value::as_str (the text of a JSON
/// string, `None` on any other value), plus the derived Clone of Value.
/// Each is a function of its argument alone, so the fields of a line are
/// functions of the line text alone, which is what ties them to the names
/// above.
#[verifier::external_body]
pub(crate) fn read_fields(line: &str) -> (r: Option<
    (Option<String>, Option<serde_json::Value>, Option<String>),
>)
    ensures
        r is Some <==> is_valid_json(line@),
        r matches Some(f) ==> {
            &&& text_view(f.0) == status_of(line@)
            &&& (f.1 is Some) == has_data_of(line@)
            &&& text_view(f.2) == error_of(line@)
        },
{
    match serde_json::from_str::<serde_json::Value>(line) {
        Ok(v) => {
            let status = v.get("status").and_then(|s| s.as_str()).map(|s| s.to_owned());
            let data = v.get("data").cloned();
            let error = v.get("error").and_then(|e| e.as_str()).map(|e| e.to_owned());
            Some((status, data, error))
        },
        Err(_) => None,
    }
}

/// Relies on serde_json::to_vec: the compact JSON encoding of `v`. It cannot
/// fail for a `Value` (every map key is a string, every number finite), and
/// the compact form escapes every control character, so the output never
/// holds a newline byte.
#[verifier::external_body]
pub(crate) fn render(v: &serde_json::Value) -> (r: Vec<u8>)
    ensures
        r@ == json_bytes_of(*v),
        crate::wire::no_newline(r@),
{
    serde_json::to_vec(v).expect("serializing a serde_json::Value cannot fail")
}

} // verus!

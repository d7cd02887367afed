//! Trusted, minimal wrappers around `serde_json`'s dynamic `Value` type.
//!
//! A level descriptor arrives as JSON text. Parsing that text and taking a
//! `Value` apart is `serde_json`'s job. Each call here is a pure function
//! of its arguments, so each wrapper's result is given a name — an
//! uninterpreted spec function — and the wrapper promises exactly that its
//! result is the named one. What the names evaluate to on given text only
//! `serde_json` knows; all decisions on the extracted plain values are made
//! by verified code in `crate::level`, whose contracts speak of the names.

use vstd::prelude::*;

verus! {

#[verifier::external_type_specification]
#[verifier::external_body]
pub struct ExValue(serde_json::Value);

/// What `serde_json::from_str::<Value>` parses the given text to: the JSON
/// value, or `None` for malformed input.
pub uninterp spec fn spec_json_parse(text: Seq<char>) -> Option<serde_json::Value>;

/// What `serde_json::Value::as_array` sees in a value: its elements if it
/// is a JSON array, `None` otherwise.
pub uninterp spec fn spec_json_elems(v: serde_json::Value) -> Option<Seq<serde_json::Value>>;

/// What `serde_json::Value::get` finds under a key: the member if the value
/// is a JSON object with that key, `None` otherwise.
pub uninterp spec fn spec_json_get(v: serde_json::Value, key: Seq<char>) -> Option<
    serde_json::Value,
>;

/// What `serde_json::Value::as_u64` sees in a value: the number if it is an
/// integer that fits in `u64`, `None` otherwise.
pub uninterp spec fn spec_json_as_u64(v: serde_json::Value) -> Option<u64>;

/// What `serde_json::Value::as_i64` sees in a value: the number if it is an
/// integer that fits in `i64`, `None` otherwise.
pub uninterp spec fn spec_json_as_i64(v: serde_json::Value) -> Option<i64>;

/// What `serde_json::Value::as_str` sees in a value: the text if it is a
/// JSON string, `None` otherwise.
pub uninterp spec fn spec_json_as_str(v: serde_json::Value) -> Option<Seq<char>>;

/// Relies on serde_json::from_str: parses JSON text into a `Value`, `None`
/// on malformed input. The result depends on the text alone.
#[verifier::external_body]
pub(crate) fn json_parse(text: &str) -> (r: Option<serde_json::Value>)
    ensures
        r == spec_json_parse(text@),
{
    serde_json::from_str::<serde_json::Value>(text).ok()
}

/// Relies on serde_json::Value::as_array: the elements if the value is a
/// JSON array, `None` otherwise. The result depends on the value alone.
#[verifier::external_body]
pub(crate) fn json_as_array(v: &serde_json::Value) -> (r: Option<&Vec<serde_json::Value>>)
    ensures
        r matches Some(a) ==> spec_json_elems(*v) == Some(a@),
        r is None ==> spec_json_elems(*v) is None,
{
    v.as_array()
}

/// Relies on serde_json::Value::get: the member under `key` if the value is
/// a JSON object with that key, `None` otherwise. The result depends on the
/// value and the key alone.
#[verifier::external_body]
pub(crate) fn json_get<'a>(v: &'a serde_json::Value, key: &str) -> (r: Option<
    &'a serde_json::Value,
>)
    ensures
        r matches Some(m) ==> spec_json_get(*v, key@) == Some(*m),
        r is None ==> spec_json_get(*v, key@) is None,
{
    v.get(key)
}

/// Relies on serde_json::Value::as_u64: the number if the value is an
/// integer that fits in `u64`, `None` otherwise. The result depends on the
/// value alone.
#[verifier::external_body]
pub(crate) fn json_as_u64(v: &serde_json::Value) -> (r: Option<u64>)
    ensures
        r == spec_json_as_u64(*v),
{
    v.as_u64()
}

/// Relies on serde_json::Value::as_i64: the number if the value is an
/// integer that fits in `i64`, `None` otherwise. The result depends on the
/// value alone.
#[verifier::external_body]
pub(crate) fn json_as_i64(v: &serde_json::Value) -> (r: Option<i64>)
    ensures
        r == spec_json_as_i64(*v),
{
    v.as_i64()
}

/// Relies on serde_json::Value::as_str: the text if the value is a JSON
/// string, `None` otherwise; the `&str` is only turned into an owned
/// `String`. The result depends on the value alone.
#[verifier::external_body]
pub(crate) fn json_as_string(v: &serde_json::Value) -> (r: Option<String>)
    ensures
        r matches Some(s) ==> spec_json_as_str(*v) == Some(s@),
        r is None ==> spec_json_as_str(*v) is None,
{
    match v.as_str() {
        Some(s) => Some(s.to_string()),
        None => None,
    }
}

} // verus!

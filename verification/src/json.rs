//! Thin trusted views of `serde_json`: parsing a text into a JSON value and
//! reading members out of it. A `serde_json::Value` is opaque here; each
//! call's result depends on its arguments alone, so it is given a name, and
//! the callers' contracts are stated over those names. Every decision taken
//! on what these calls return is made, and verified, in the callers.

use vstd::prelude::*;

verus! {

#[verifier::external_type_specification]
#[verifier::external_body]
pub struct ExJsonValue(serde_json::Value);

/// The JSON value a text parses to, `None` when the text is not well-formed
/// JSON.
pub uninterp spec fn spec_json_value(s: Seq<char>) -> Option<serde_json::Value>;

/// The member of an object under a string key, `None` on a missing key or a
/// non-object value.
pub uninterp spec fn spec_json_member(v: serde_json::Value, key: Seq<char>) -> Option<
    serde_json::Value,
>;

/// The element of an array at a position, `None` out of range or on a
/// non-array value.
pub uninterp spec fn spec_json_element(v: serde_json::Value, i: int) -> Option<serde_json::Value>;

/// The value of a non-negative JSON integer that fits in `u64`, `None` for
/// every other value.
pub uninterp spec fn spec_json_u64(v: serde_json::Value) -> Option<u64>;

/// The text of a JSON string value, `None` for every other value.
pub uninterp spec fn spec_json_str(v: serde_json::Value) -> Option<Seq<char>>;

/// Relies on `serde_json::from_str::<serde_json::Value>`: `Some` exactly when
/// the text is well-formed JSON; the result is a function of the text alone.
#[verifier::external_body]
pub(crate) fn json_parse(s: &str) -> (r: Option<serde_json::Value>)
    ensures
        r == spec_json_value(s@),
{
    serde_json::from_str(s).ok()
}

/// Relies on `serde_json::Value::get` with a string key: the member of an
/// object under that key, `None` on a missing key or a non-object value.
#[verifier::external_body]
pub(crate) fn json_member<'a>(v: &'a serde_json::Value, key: &str) -> (r: Option<
    &'a serde_json::Value,
>)
    ensures
        r is Some <==> spec_json_member(*v, key@) is Some,
        r matches Some(m) ==> *m == spec_json_member(*v, key@)->Some_0,
{
    v.get(key)
}

/// Relies on `serde_json::Value::get` with a numeric index: the element of an
/// array at that position, `None` out of range or on a non-array value.
#[verifier::external_body]
pub(crate) fn json_element<'a>(v: &'a serde_json::Value, i: usize) -> (r: Option<
    &'a serde_json::Value,
>)
    ensures
        r is Some <==> spec_json_element(*v, i as int) is Some,
        r matches Some(m) ==> *m == spec_json_element(*v, i as int)->Some_0,
{
    v.get(i)
}

/// Relies on `serde_json::Value::as_u64`: the value of a non-negative JSON
/// integer that fits in `u64`, `None` for every other value.
#[verifier::external_body]
pub(crate) fn json_u64(v: &serde_json::Value) -> (r: Option<u64>)
    ensures
        r == spec_json_u64(*v),
{
    v.as_u64()
}

/// Relies on `serde_json::Value::as_str`: the text of a JSON string value,
/// `None` for every other value.
#[verifier::external_body]
pub(crate) fn json_str<'a>(v: &'a serde_json::Value) -> (r: Option<&'a str>)
    ensures
        r is Some <==> spec_json_str(*v) is Some,
        r matches Some(t) ==> t@ == spec_json_str(*v)->Some_0,
{
    v.as_str()
}

} // verus!

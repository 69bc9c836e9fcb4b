//! JSON values carried through the library without being inspected.
use vstd::prelude::*;

use crate::text::to_owned;

verus! {

/// `serde_json::Value`, carried through opaquely.
#[verifier::external_type_specification]
#[verifier::external_body]
pub struct ExJsonValue(serde_json::Value);

/// `<serde_json::Value as Clone>::clone`.  The clone of a JSON value (derived
/// by serde_json) rebuilds the same value, so the copy is claimed equal to the
/// original.
pub assume_specification[<serde_json::Value as Clone>::clone](v: &serde_json::Value) -> (r:
    serde_json::Value)
    ensures
        r == *v,
;

/// The JSON boolean `b` (`Value::Bool`).
pub uninterp spec fn bool_json(b: bool) -> serde_json::Value;

/// The JSON number `n` (`Value::from(n)`).
pub uninterp spec fn number_json(n: u64) -> serde_json::Value;

/// `serde_json::Value::Bool(b)`: the value is the named `bool_json(b)`.
#[verifier::external_body]
pub(crate) fn json_bool(b: bool) -> (r: serde_json::Value)
    ensures
        r == bool_json(b),
{
    serde_json::Value::Bool(b)
}

/// `serde_json::Value::from(n)`: the value is the named `number_json(n)`.
#[verifier::external_body]
pub(crate) fn json_u64(n: u64) -> (r: serde_json::Value)
    ensures
        r == number_json(n),
{
    serde_json::Value::from(n)
}

/// The JSON string `s` (`Value::String`).
pub uninterp spec fn string_json(s: Seq<char>) -> serde_json::Value;

/// `serde_json::Value::String(s)`: the value is the named `string_json(s@)`.
#[verifier::external_body]
pub(crate) fn json_string(s: String) -> (r: serde_json::Value)
    ensures
        r == string_json(s@),
{
    serde_json::Value::String(s)
}

/// The value under `key` of a JSON object (`Value::get`): `None` for a
/// missing key or a value that is not an object.
pub uninterp spec fn field_of(v: serde_json::Value, key: Seq<char>) -> Option<serde_json::Value>;

/// The text of a JSON string (`Value::as_str`), `None` for other values.
pub uninterp spec fn str_of(v: serde_json::Value) -> Option<Seq<char>>;

/// The number of a JSON number that is a `u64` (`Value::as_u64`).
pub uninterp spec fn u64_of(v: serde_json::Value) -> Option<u64>;

/// The boolean of a JSON boolean (`Value::as_bool`).
pub uninterp spec fn bool_of(v: serde_json::Value) -> Option<bool>;

/// The elements of a JSON array (`Value::as_array`).
pub uninterp spec fn array_of(v: serde_json::Value) -> Option<Seq<serde_json::Value>>;

/// `v.get(key)`: the field is the named `field_of`.
#[verifier::external_body]
pub(crate) fn json_field<'a>(v: &'a serde_json::Value, key: &str) -> (r: Option<&'a serde_json::Value>)
    ensures
        match r {
            Some(x) => field_of(*v, key@) == Some(*x),
            None => field_of(*v, key@) is None,
        },
{
    v.get(key)
}

/// `v.as_str()`: the text is the named `str_of`.
#[verifier::external_body]
pub(crate) fn json_as_str(v: &serde_json::Value) -> (r: Option<&str>)
    ensures
        match r {
            Some(x) => str_of(*v) == Some(x@),
            None => str_of(*v) is None,
        },
{
    v.as_str()
}

/// `v.as_u64()`: the number is the named `u64_of`.
#[verifier::external_body]
pub(crate) fn json_as_u64(v: &serde_json::Value) -> (r: Option<u64>)
    ensures
        r == u64_of(*v),
{
    v.as_u64()
}

/// `v.as_bool()`: the boolean is the named `bool_of`.
#[verifier::external_body]
pub(crate) fn json_as_bool(v: &serde_json::Value) -> (r: Option<bool>)
    ensures
        r == bool_of(*v),
{
    v.as_bool()
}

/// `v.as_array()`: the elements are the named `array_of`.
#[verifier::external_body]
pub(crate) fn json_as_array(v: &serde_json::Value) -> (r: Option<&Vec<serde_json::Value>>)
    ensures
        match r {
            Some(a) => array_of(*v) == Some(a@),
            None => array_of(*v) is None,
        },
{
    v.as_array()
}

/// The text of the string under `key`, if the field is a string.
pub open spec fn str_field(v: serde_json::Value, key: Seq<char>) -> Option<Seq<char>> {
    match field_of(v, key) {
        Some(f) => str_of(f),
        None => None,
    }
}

/// The text of the string under `key`, or `default`.
pub open spec fn str_field_or(v: serde_json::Value, key: Seq<char>, default: Seq<char>) -> Seq<char> {
    match str_field(v, key) {
        Some(t) => t,
        None => default,
    }
}

/// The `u64` under `key` cut to 32 bits, or 0.
pub open spec fn u32_field(v: serde_json::Value, key: Seq<char>) -> u32 {
    match field_of(v, key) {
        Some(f) => match u64_of(f) {
            Some(n) => n as u32,
            None => 0,
        },
        None => 0,
    }
}

/// The boolean under `key`, or `default`.
pub open spec fn bool_field_or(v: serde_json::Value, key: Seq<char>, default: bool) -> bool {
    match field_of(v, key) {
        Some(f) => match bool_of(f) {
            Some(b) => b,
            None => default,
        },
        None => default,
    }
}

/// The text of the string under `key`, or `default`.
pub(crate) fn get_str_or(v: &serde_json::Value, key: &str, default: &str) -> (r: String)
    ensures
        r@ == str_field_or(*v, key@, default@),
{
    match json_field(v, key) {
        Some(f) => match json_as_str(f) {
            Some(t) => to_owned(t),
            None => to_owned(default),
        },
        None => to_owned(default),
    }
}

/// The text of the string under `key`, if the field is a string.
pub(crate) fn get_str(v: &serde_json::Value, key: &str) -> (r: Option<String>)
    ensures
        match r {
            Some(t) => str_field(*v, key@) == Some(t@),
            None => str_field(*v, key@) is None,
        },
{
    match json_field(v, key) {
        Some(f) => match json_as_str(f) {
            Some(t) => Some(to_owned(t)),
            None => None,
        },
        None => None,
    }
}

/// The `u64` under `key` cut to 32 bits, or 0.
pub(crate) fn get_u32(v: &serde_json::Value, key: &str) -> (r: u32)
    ensures
        r == u32_field(*v, key@),
{
    match json_field(v, key) {
        Some(f) => match json_as_u64(f) {
            Some(n) => n as u32,
            None => 0,
        },
        None => 0,
    }
}

/// The boolean under `key`, or `default`.
pub(crate) fn get_bool_or(v: &serde_json::Value, key: &str, default: bool) -> (r: bool)
    ensures
        r == bool_field_or(*v, key@, default),
{
    match json_field(v, key) {
        Some(f) => match json_as_bool(f) {
            Some(b) => b,
            None => default,
        },
        None => default,
    }
}

/// The JSON text of a value (`Value`'s `Display`: compact JSON).
pub uninterp spec fn json_text(v: serde_json::Value) -> Seq<char>;

/// `v.to_string()`: the text is the named `json_text(*v)`.
#[verifier::external_body]
pub(crate) fn json_to_text(v: &serde_json::Value) -> (r: String)
    ensures
        r@ == json_text(*v),
{
    v.to_string()
}

/// The value `serde_json::from_str` reads from a text, if it reads one.
pub uninterp spec fn parsed_json(text: Seq<char>) -> Option<serde_json::Value>;

/// `serde_json::from_str::<Value>(text).ok()`: the named `parsed_json`.
#[verifier::external_body]
pub(crate) fn json_parse(text: &str) -> (r: Option<serde_json::Value>)
    ensures
        r == parsed_json(text@),
{
    serde_json::from_str(text).ok()
}

} // verus!

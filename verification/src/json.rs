//! JSON values as `serde_json` holds them, and a mathematical model of them.
//!
//! A `serde_json::Value` is opaque to the verifier. What it holds is named by
//! [`json_of`]; every function below that touches a value says what it does in
//! terms of that model. The statements hold of `serde_json` built without its
//! features `arbitrary_precision` and `preserve_order`.

use vstd::prelude::*;

verus! {

#[verifier::external_type_specification]
#[verifier::external_body]
pub struct ExValue(serde_json::Value);

#[verifier::external_type_specification]
#[verifier::external_body]
#[verifier::reject_recursive_types(K)]
#[verifier::reject_recursive_types(V)]
pub struct ExObject<K, V>(serde_json::Map<K, V>);

#[verifier::external_type_specification]
#[verifier::external_body]
pub struct ExJsonError(serde_json::Error);

/// The members of a JSON object as `serde_json` holds them.
pub type Members = serde_json::Map<String, serde_json::Value>;

/// A JSON number: a non-negative integer, a negative integer, or a finite
/// binary floating-point number given by its 64-bit pattern.
pub enum JsonNumber {
    PosInt(u64),
    NegInt(i64),
    Float(u64),
}

/// A JSON value.
pub enum Json {
    Null,
    Bool(bool),
    Number(JsonNumber),
    Text(Seq<char>),
    Array(Seq<Json>),
    Object(Map<Seq<char>, Json>),
}

/// The JSON value that `v` holds.
pub uninterp spec fn json_of(v: serde_json::Value) -> Json;

/// The members that `m` holds, by key.
pub uninterp spec fn members_of(m: serde_json::Map<String, serde_json::Value>) -> Map<Seq<char>, Json>;

/// The value that `serde_json` reads from `bytes`, where it accepts them.
pub uninterp spec fn parsed_json(bytes: Seq<u8>) -> Option<Json>;

/// The compact text that `serde_json` writes for `j`.
pub uninterp spec fn written_json(j: Json) -> Seq<u8>;

/// The value that stands for the number `n` once `serde_json` has taken it as a
/// floating-point number: always a floating-point number, and `n` itself where
/// `n` is one already.
pub uninterp spec fn float_of(n: JsonNumber) -> Json;

/// Whether `j` is a floating-point number.
pub open spec fn is_float(j: Json) -> bool {
    j matches Json::Number(JsonNumber::Float(_))
}

/// The values of `vs`, each as the JSON value it holds.
pub open spec fn json_seq(vs: Seq<serde_json::Value>) -> Seq<Json> {
    Seq::new(vs.len(), |i: int| json_of(vs[i]))
}

/// The member `key` of `j`; `Null` where `j` is no object or has no such member.
pub open spec fn member_of(j: Json, key: Seq<char>) -> Json {
    match j {
        Json::Object(members) => if members.contains_key(key) {
            members[key]
        } else {
            Json::Null
        },
        _ => Json::Null,
    }
}

/// The text of `j`, or `default` where `j` is no string.
pub open spec fn text_or(j: Json, default: Seq<char>) -> Seq<char> {
    match j {
        Json::Text(s) => s,
        _ => default,
    }
}

/// The number `j` where it is a non-negative integer, else `default`.
pub open spec fn uint_or(j: Json, default: u64) -> u64 {
    match j {
        Json::Number(JsonNumber::PosInt(n)) => n,
        _ => default,
    }
}

/// The number `j` as a floating-point number, or `default` where `j` is no
/// number.
pub open spec fn float_or(j: Json, default: Json) -> Json {
    match j {
        Json::Number(n) => float_of(n),
        _ => default,
    }
}

/// The value that the JSON text `text` denotes; `Null` where it denotes none.
pub open spec fn literal(text: Seq<char>) -> Json {
    match parsed_json(vstd::utf8::encode_utf8(text)) {
        Some(j) => j,
        None => Json::Null,
    }
}

/// `serde_json::from_slice` at `Value`: succeeds exactly on the inputs that
/// `parsed_json` names a value for, and returns that value.
#[verifier::external_body]
pub(crate) fn parse_json(bytes: &[u8]) -> (r: Result<serde_json::Value, serde_json::Error>)
    ensures
        match parsed_json(bytes@) {
            Some(j) => r matches Ok(v) && json_of(v) == j,
            None => r is Err,
        },
{
    serde_json::from_slice::<serde_json::Value>(bytes)
}

/// `serde_json::to_vec` on a `Value`: the text that `written_json` names for
/// what the value holds. It does not fail: a `Value` has string keys and finite
/// numbers only, and writing into a vector cannot go wrong.
#[verifier::external_body]
pub(crate) fn write_json(v: &serde_json::Value) -> (r: Result<Vec<u8>, serde_json::Error>)
    ensures
        r is Ok,
        match r {
            Ok(bytes) => bytes@ == written_json(json_of(*v)),
            Err(_) => true,
        },
{
    serde_json::to_vec(v)
}

/// Indexing of a `Value` by a string key: the member under that key, or a
/// reference to a null value where `v` is no object or has no such member.
#[verifier::external_body]
pub(crate) fn member<'a>(v: &'a serde_json::Value, key: &str) -> (r: &'a serde_json::Value)
    ensures
        json_of(*r) == member_of(json_of(*v), key@),
{
    &v[key]
}

/// `Value::as_array`: the elements where `v` is an array.
#[verifier::external_body]
pub(crate) fn as_array(v: &serde_json::Value) -> (r: Option<&Vec<serde_json::Value>>)
    ensures
        match json_of(*v) {
            Json::Array(items) => r matches Some(a) && json_seq(a@) == items,
            _ => r is None,
        },
{
    v.as_array()
}

/// `Value::as_str`: the text where `v` is a string.
#[verifier::external_body]
pub(crate) fn as_text(v: &serde_json::Value) -> (r: Option<&str>)
    ensures
        match json_of(*v) {
            Json::Text(s) => r matches Some(t) && t@ == s,
            _ => r is None,
        },
{
    v.as_str()
}

/// `Value::as_u64`: the number where `v` is a non-negative integer.
#[verifier::external_body]
pub(crate) fn as_uint(v: &serde_json::Value) -> (r: Option<u64>)
    ensures
        r == match json_of(*v) {
            Json::Number(JsonNumber::PosInt(n)) => Some(n),
            _ => None::<u64>,
        },
{
    v.as_u64()
}

/// `Value::as_f64`, its result turned into a `Value` again: where `v` is a
/// number, the value that `float_of` names for it. Every JSON number is finite
/// as a floating-point number, so that value is a floating-point number; a
/// number that is one already is handed back as it is.
#[verifier::external_body]
pub(crate) fn as_float(v: &serde_json::Value) -> (r: Option<serde_json::Value>)
    ensures
        match json_of(*v) {
            Json::Number(n) => r matches Some(x) && json_of(x) == float_of(n) && is_float(float_of(n)) && (n is Float ==> float_of(n) == Json::Number(n)),
            _ => r is None,
        },
{
    v.as_f64().map(serde_json::Value::from)
}

/// `Value::Null`.
#[verifier::external_body]
pub(crate) fn null_value() -> (r: serde_json::Value)
    ensures
        json_of(r) == Json::Null,
{
    serde_json::Value::Null
}

/// `Value::from` on a string slice: a string with the same text.
#[verifier::external_body]
pub(crate) fn text_value(s: &str) -> (r: serde_json::Value)
    ensures
        json_of(r) == Json::Text(s@),
{
    serde_json::Value::from(s)
}

/// `Value::from` on a `u64`: that non-negative integer.
#[verifier::external_body]
pub(crate) fn uint_value(n: u64) -> (r: serde_json::Value)
    ensures
        json_of(r) == Json::Number(JsonNumber::PosInt(n)),
{
    serde_json::Value::from(n)
}

/// `Value::Array`: an array of the given elements, in their order.
#[verifier::external_body]
pub(crate) fn array_value(items: Vec<serde_json::Value>) -> (r: serde_json::Value)
    ensures
        json_of(r) == Json::Array(json_seq(items@)),
{
    serde_json::Value::Array(items)
}

/// `Map::new`: an object without members.
#[verifier::external_body]
pub(crate) fn new_object() -> (r: Members)
    ensures
        members_of(r) == (Map::<Seq<char>, Json>::empty()),
{
    serde_json::Map::new()
}

/// `Map::insert`: sets the member under `key`, replacing an earlier one.
#[verifier::external_body]
pub(crate) fn set_member(m: &mut Members, key: &str, v: serde_json::Value)
    ensures
        members_of(*final(m)) == members_of(*old(m)).insert(key@, json_of(v)),
{
    m.insert(key.to_owned(), v);
}

/// `Value::Object`: the object with the members of `m`.
#[verifier::external_body]
pub(crate) fn object_value(m: Members) -> (r: serde_json::Value)
    ensures
        json_of(r) == Json::Object(members_of(m)),
{
    serde_json::Value::Object(m)
}

/// The value that the JSON text `text` denotes; a null value where it denotes
/// none.
pub(crate) fn literal_value(text: &str) -> (r: serde_json::Value)
    ensures
        json_of(r) == literal(text@),
{
    match parse_json(text.as_bytes()) {
        Ok(v) => v,
        Err(_) => null_value(),
    }
}

} // verus!

//! JSON documents: a mathematical model of them, and the few entry points of
//! `serde_json` through which the library builds, writes, reads and inspects
//! them. Everything marked `external_body` here is believed, not proved.

use vstd::prelude::*;

verus! {

/// The mathematical content of a JSON document.
pub enum Json {
    Null,
    Bool(bool),
    /// A number that `serde_json` holds as an integer of 64 bits.
    Integer(int),
    /// Any other number, given by the bits of the double-precision value
    /// that `serde_json` holds for it.
    Real(u64),
    Text(Seq<char>),
    Array(Seq<Json>),
    Object(Map<Seq<char>, Json>),
}

#[verifier::external_type_specification]
#[verifier::external_body]
pub struct ExValue(serde_json::Value);

#[verifier::external_type_specification]
#[verifier::external_body]
pub struct ExNumber(serde_json::Number);

#[verifier::external_type_specification]
#[verifier::external_body]
#[verifier::reject_recursive_types(K)]
#[verifier::reject_recursive_types(V)]
pub struct ExMap<K, V>(serde_json::Map<K, V>);

/// The document that a `serde_json::Value` holds.
pub uninterp spec fn json_of(v: serde_json::Value) -> Json;

/// The number that a `serde_json::Number` holds, as a document.
pub uninterp spec fn number_of(n: serde_json::Number) -> Json;

/// The members that a `serde_json::Map` from strings to values holds.
pub uninterp spec fn object_of(m: serde_json::Map<String, serde_json::Value>) -> Map<
    Seq<char>,
    Json,
>;

/// The compact text that `serde_json` writes for a document. With the
/// crate's default map, which keeps its keys sorted, the text depends on
/// nothing but the document.
pub uninterp spec fn json_text(j: Json) -> Seq<char>;

/// The document that `serde_json` reads from a text, or `None` where it
/// rejects the text.
pub uninterp spec fn json_parse(s: Seq<char>) -> Option<Json>;

/// The object without members.
pub open spec fn empty_object() -> Map<Seq<char>, Json> {
    Map::empty()
}

/// The documents that a sequence of values holds, in order.
pub open spec fn values_of(s: Seq<serde_json::Value>) -> Seq<Json> {
    s.map_values(|v: serde_json::Value| json_of(v))
}

/// The document that an optional value holds.
pub open spec fn optional_json(v: Option<serde_json::Value>) -> Option<Json> {
    match v {
        Some(x) => Some(json_of(x)),
        None => None,
    }
}

/// The member `key` of a document, where the document is an object that has
/// one.
pub open spec fn member(j: Json, key: Seq<char>) -> Option<Json> {
    match j {
        Json::Object(m) => if m.contains_key(key) {
            Some(m[key])
        } else {
            None
        },
        _ => None,
    }
}

/// The integer `n` where the document is an integral number with
/// `lo <= n <= hi`.
pub open spec fn integer_in(j: Json, lo: int, hi: int) -> Option<int> {
    match j {
        Json::Integer(n) => if lo <= n <= hi {
            Some(n)
        } else {
            None
        },
        _ => None,
    }
}

/// The characters of a document that is a string.
pub open spec fn text_in(j: Json) -> Option<Seq<char>> {
    match j {
        Json::Text(s) => Some(s),
        _ => None,
    }
}

/// The items of a document that is an array.
pub open spec fn items_in(j: Json) -> Option<Seq<Json>> {
    match j {
        Json::Array(items) => Some(items),
        _ => None,
    }
}

/// `serde_json::Value::from(&str)`: the string value with the characters of
/// `s`.
#[verifier::external_body]
pub(crate) fn text_value(s: &str) -> (v: serde_json::Value)
    ensures
        json_of(v) == Json::Text(s@),
{
    serde_json::Value::from(s)
}

/// `serde_json::Value::from(u64)`: the number value that holds `n`.
#[verifier::external_body]
pub(crate) fn unsigned_value(n: u64) -> (v: serde_json::Value)
    ensures
        json_of(v) == Json::Integer(n as int),
{
    serde_json::Value::from(n)
}

/// `serde_json::Value::from(bool)`.
#[verifier::external_body]
pub(crate) fn bool_value(b: bool) -> (v: serde_json::Value)
    ensures
        json_of(v) == Json::Bool(b),
{
    serde_json::Value::from(b)
}

/// `serde_json::Value::from(Number)`: the number value that holds what `n`
/// holds.
#[verifier::external_body]
pub(crate) fn number_value(n: &serde_json::Number) -> (v: serde_json::Value)
    ensures
        json_of(v) == number_of(*n),
{
    serde_json::Value::from(n.clone())
}

/// `serde_json::Value::from(Vec<Value>)`: the array of the items, in order.
#[verifier::external_body]
pub(crate) fn array_value(items: Vec<serde_json::Value>) -> (v: serde_json::Value)
    ensures
        json_of(v) == Json::Array(values_of(items@)),
{
    serde_json::Value::from(items)
}

/// `serde_json::Map::new`: a map without members.
#[verifier::external_body]
pub(crate) fn new_object() -> (m: serde_json::Map<String, serde_json::Value>)
    ensures
        object_of(m) == empty_object(),
{
    serde_json::Map::new()
}

/// `serde_json::Map::insert`: afterwards `key` maps to `value`, whether or
/// not the map had the key before, and the other members are as they were.
#[verifier::external_body]
pub(crate) fn object_insert(
    m: &mut serde_json::Map<String, serde_json::Value>,
    key: &str,
    value: serde_json::Value,
)
    ensures
        object_of(*final(m)) == object_of(*old(m)).insert(key@, json_of(value)),
{
    m.insert(key.to_owned(), value);
}

/// `serde_json::Value::from(Map)`: the object with the members of `m`.
#[verifier::external_body]
pub(crate) fn object_value(m: serde_json::Map<String, serde_json::Value>) -> (v:
    serde_json::Value)
    ensures
        json_of(v) == Json::Object(object_of(m)),
{
    serde_json::Value::from(m)
}

/// `Value::to_string`, the `Display` of `serde_json::Value`: the compact
/// text of the document.
#[verifier::external_body]
pub(crate) fn write_value(v: &serde_json::Value) -> (s: String)
    ensures
        s@ == json_text(json_of(*v)),
{
    v.to_string()
}

/// `serde_json::from_str` at `Value`: the value read from the text, or
/// `None` where the crate reports an error because the text is no JSON
/// document.
#[verifier::external_body]
pub(crate) fn read_value(s: &str) -> (r: Option<serde_json::Value>)
    ensures
        match r {
            Some(v) => json_parse(s@) == Some(json_of(v)),
            None => json_parse(s@) is None,
        },
{
    serde_json::from_str::<serde_json::Value>(s).ok()
}

/// `serde_json::Value::get` with a string index: the member `key` of an
/// object that has one, `None` for every other value.
#[verifier::external_body]
pub(crate) fn value_get<'a>(v: &'a serde_json::Value, key: &str) -> (r: Option<
    &'a serde_json::Value,
>)
    ensures
        match r {
            Some(x) => member(json_of(*v), key@) == Some(json_of(*x)),
            None => member(json_of(*v), key@) is None,
        },
{
    v.get(key)
}

/// `serde_json::Value::as_array`: the items of an array, `None` for every
/// other value.
#[verifier::external_body]
pub(crate) fn value_as_array(v: &serde_json::Value) -> (r: Option<&Vec<serde_json::Value>>)
    ensures
        match r {
            Some(items) => items_in(json_of(*v)) == Some(values_of(items@)),
            None => items_in(json_of(*v)) is None,
        },
{
    v.as_array()
}

/// `serde_json::Value::as_str`: the characters of a string, `None` for every
/// other value.
#[verifier::external_body]
pub(crate) fn value_as_str(v: &serde_json::Value) -> (r: Option<&str>)
    ensures
        match r {
            Some(s) => text_in(json_of(*v)) == Some(s@),
            None => text_in(json_of(*v)) is None,
        },
{
    v.as_str()
}

/// `serde_json::Value::as_u64`: the integer of an integral number that is
/// not negative, `None` for every other value.
#[verifier::external_body]
pub(crate) fn value_as_u64(v: &serde_json::Value) -> (r: Option<u64>)
    ensures
        match r {
            Some(n) => integer_in(json_of(*v), 0, u64::MAX as int) == Some(n as int),
            None => integer_in(json_of(*v), 0, u64::MAX as int) is None,
        },
{
    v.as_u64()
}

/// `serde_json::Value::as_i64`: the integer of an integral number that fits
/// in an `i64`, `None` for every other value.
#[verifier::external_body]
pub(crate) fn value_as_i64(v: &serde_json::Value) -> (r: Option<i64>)
    ensures
        match r {
            Some(n) => integer_in(json_of(*v), i64::MIN as int, i64::MAX as int) == Some(n as int),
            None => integer_in(json_of(*v), i64::MIN as int, i64::MAX as int) is None,
        },
{
    v.as_i64()
}

} // verus!

//! Reading and writing the members of JSON objects, shared by every payload
//! of the protocol.

use vstd::prelude::*;
use crate::json::{
    array_value, bool_value, integer_in, items_in, json_of, member, number_of, number_value,
    object_insert, object_of, optional_json, text_in, text_value, unsigned_value,
    value_as_array, value_as_i64, value_as_str, value_as_u64, value_get, values_of, Json,
};

verus! {

/// A value that is one text or a list of texts.
pub enum OneOrMany {
    One(Seq<char>),
    Many(Seq<Seq<char>>),
}

/// The characters of each string of a sequence.
pub open spec fn texts(items: Seq<String>) -> Seq<Seq<char>> {
    items.map_values(|s: String| s@)
}

/// The characters of an optional string.
pub open spec fn optional_text(text: Option<String>) -> Option<Seq<char>> {
    match text {
        Some(s) => Some(s@),
        None => None,
    }
}

/// The array of strings that stands for a list of texts.
pub open spec fn text_array(items: Seq<Seq<char>>) -> Json {
    Json::Array(items.map_values(|s: Seq<char>| Json::Text(s)))
}

/// The document that stands for one text or a list of texts: a bare string
/// for one, an array of strings, in order, for a list.
pub open spec fn one_or_many_json(x: OneOrMany) -> Json {
    match x {
        OneOrMany::One(s) => Json::Text(s),
        OneOrMany::Many(items) => text_array(items),
    }
}

/// The texts of an array whose items are all strings.
pub open spec fn json_texts(items: Seq<Json>) -> Option<Seq<Seq<char>>> {
    if forall|i: int| 0 <= i < items.len() ==> (#[trigger] text_in(items[i])) is Some {
        Some(items.map_values(|j: Json| text_in(j)->Some_0))
    } else {
        None
    }
}

/// The text or list of texts that a document stands for, if it stands for
/// one: a string is one text, an array of strings is a list.
pub open spec fn json_one_or_many(j: Json) -> Option<OneOrMany> {
    match j {
        Json::Text(s) => Some(OneOrMany::One(s)),
        Json::Array(items) => match json_texts(items) {
            Some(list) => Some(OneOrMany::Many(list)),
            None => None,
        },
        _ => None,
    }
}

/// Reading back the document of one text or of a list of texts gives the
/// same value, with the items of a list in their order.
pub proof fn lemma_one_or_many_round_trip(x: OneOrMany)
    ensures
        json_one_or_many(one_or_many_json(x)) == Some(x),
        x is One ==> one_or_many_json(x) == Json::Text(x->One_0),
        x is Many ==> one_or_many_json(x) is Array,
        x is Many ==> one_or_many_json(x)->Array_0.len() == x->Many_0.len(),
        x is Many ==> forall|i: int|
            0 <= i < x->Many_0.len() ==> (#[trigger] one_or_many_json(x)->Array_0[i]) == Json::Text(
                x->Many_0[i],
            ),
{
    match x {
        OneOrMany::One(s) => {},
        OneOrMany::Many(items) => {
            let encoded = items.map_values(|s: Seq<char>| Json::Text(s));
            assert(forall|i: int|
                0 <= i < encoded.len() ==> (#[trigger] text_in(encoded[i])) is Some);
            assert(encoded.map_values(|j: Json| text_in(j)->Some_0) =~= items);
        },
    }
}

/// The text under `key`, where the document is an object whose member `key`
/// is a string.
pub open spec fn text_member(j: Json, key: Seq<char>) -> Option<Seq<char>> {
    match member(j, key) {
        Some(x) => text_in(x),
        None => None,
    }
}

/// The integer under `key`, where the document is an object whose member
/// `key` is an integral number between `lo` and `hi`.
pub open spec fn integer_member(j: Json, key: Seq<char>, lo: int, hi: int) -> Option<int> {
    match member(j, key) {
        Some(x) => integer_in(x, lo, hi),
        None => None,
    }
}

/// The items under `key`, where the document is an object whose member `key`
/// is an array.
pub open spec fn items_member(j: Json, key: Seq<char>) -> Option<Seq<Json>> {
    match member(j, key) {
        Some(x) => items_in(x),
        None => None,
    }
}

/// An object with one more member, where a value is given for it.
#[verifier::opaque]
pub open spec fn with_member(
    m: Map<Seq<char>, Json>,
    key: Seq<char>,
    value: Option<Json>,
) -> Map<Seq<char>, Json> {
    match value {
        Some(j) => m.insert(key, j),
        None => m,
    }
}

/// Adding a member changes what is found under its name, where a value is
/// given, and nothing else.
pub proof fn lemma_with_member(m: Map<Seq<char>, Json>, key: Seq<char>, value: Option<Json>)
    ensures
        forall|name: Seq<char>| #[trigger]
            member(Json::Object(with_member(m, key, value)), name) == (if name == key
                && value is Some {
                value
            } else {
                member(Json::Object(m), name)
            }),
        with_member(m, key, value).dom().subset_of(m.dom().insert(key)),
{
    reveal(with_member);
}

/// The document of an optional number of 32 bits.
pub open spec fn optional_integer(n: Option<u32>) -> Option<Json> {
    match n {
        Some(k) => Some(Json::Integer(k as int)),
        None => None,
    }
}

/// The document of an optional truth value.
pub open spec fn optional_bool(b: Option<bool>) -> Option<Json> {
    match b {
        Some(x) => Some(Json::Bool(x)),
        None => None,
    }
}

/// The document of an optional number.
pub open spec fn optional_number(n: Option<serde_json::Number>) -> Option<Json> {
    match n {
        Some(x) => Some(number_of(x)),
        None => None,
    }
}

/// The document of an optional string.
pub open spec fn optional_string(s: Option<String>) -> Option<Json> {
    match s {
        Some(x) => Some(Json::Text(x@)),
        None => None,
    }
}

pub(crate) fn get_text(v: &serde_json::Value, key: &str) -> (r: Option<String>)
    ensures
        optional_text(r) == text_member(json_of(*v), key@),
{
    match value_get(v, key) {
        Some(x) => match value_as_str(x) {
            Some(s) => Some(s.to_owned()),
            None => None,
        },
        None => None,
    }
}

pub(crate) fn get_u64(v: &serde_json::Value, key: &str) -> (r: Option<u64>)
    ensures
        match r {
            Some(n) => integer_member(json_of(*v), key@, 0, u64::MAX as int) == Some(n as int),
            None => integer_member(json_of(*v), key@, 0, u64::MAX as int) is None,
        },
{
    match value_get(v, key) {
        Some(x) => value_as_u64(x),
        None => None,
    }
}

pub(crate) fn get_u32(v: &serde_json::Value, key: &str) -> (r: Option<u32>)
    ensures
        match r {
            Some(n) => integer_member(json_of(*v), key@, 0, u32::MAX as int) == Some(n as int),
            None => integer_member(json_of(*v), key@, 0, u32::MAX as int) is None,
        },
{
    match get_u64(v, key) {
        Some(n) => if n <= u32::MAX as u64 {
            Some(n as u32)
        } else {
            None
        },
        None => None,
    }
}

pub(crate) fn get_usize(v: &serde_json::Value, key: &str) -> (r: Option<usize>)
    ensures
        match r {
            Some(n) => integer_member(json_of(*v), key@, 0, usize::MAX as int) == Some(n as int),
            None => integer_member(json_of(*v), key@, 0, usize::MAX as int) is None,
        },
{
    match get_u64(v, key) {
        Some(n) => if n <= usize::MAX as u64 {
            Some(n as usize)
        } else {
            None
        },
        None => None,
    }
}

pub(crate) fn get_i64(v: &serde_json::Value, key: &str) -> (r: Option<i64>)
    ensures
        match r {
            Some(n) => integer_member(json_of(*v), key@, i64::MIN as int, i64::MAX as int) == Some(
                n as int,
            ),
            None => integer_member(json_of(*v), key@, i64::MIN as int, i64::MAX as int) is None,
        },
{
    match value_get(v, key) {
        Some(x) => value_as_i64(x),
        None => None,
    }
}

pub(crate) fn get_items<'a>(v: &'a serde_json::Value, key: &str) -> (r: Option<
    &'a Vec<serde_json::Value>,
>)
    ensures
        match r {
            Some(items) => items_member(json_of(*v), key@) == Some(values_of(items@)),
            None => items_member(json_of(*v), key@) is None,
        },
{
    match value_get(v, key) {
        Some(x) => value_as_array(x),
        None => None,
    }
}

pub(crate) fn put_text(
    m: &mut serde_json::Map<String, serde_json::Value>,
    key: &str,
    value: &Option<String>,
)
    ensures
        object_of(*final(m)) == with_member(object_of(*old(m)), key@, optional_string(*value)),
{
    proof {
        reveal(with_member);
    }
    match value {
        Some(s) => object_insert(m, key, text_value(s.as_str())),
        None => {},
    }
}

pub(crate) fn put_u32(
    m: &mut serde_json::Map<String, serde_json::Value>,
    key: &str,
    value: Option<u32>,
)
    ensures
        object_of(*final(m)) == with_member(object_of(*old(m)), key@, optional_integer(value)),
{
    proof {
        reveal(with_member);
    }
    match value {
        Some(n) => object_insert(m, key, unsigned_value(n as u64)),
        None => {},
    }
}

pub(crate) fn put_bool(
    m: &mut serde_json::Map<String, serde_json::Value>,
    key: &str,
    value: Option<bool>,
)
    ensures
        object_of(*final(m)) == with_member(object_of(*old(m)), key@, optional_bool(value)),
{
    proof {
        reveal(with_member);
    }
    match value {
        Some(b) => object_insert(m, key, bool_value(b)),
        None => {},
    }
}

pub(crate) fn put_number(
    m: &mut serde_json::Map<String, serde_json::Value>,
    key: &str,
    value: &Option<serde_json::Number>,
)
    ensures
        object_of(*final(m)) == with_member(object_of(*old(m)), key@, optional_number(*value)),
{
    proof {
        reveal(with_member);
    }
    match value {
        Some(n) => object_insert(m, key, number_value(n)),
        None => {},
    }
}

pub(crate) fn put_value(
    m: &mut serde_json::Map<String, serde_json::Value>,
    key: &str,
    value: Option<serde_json::Value>,
)
    ensures
        object_of(*final(m)) == with_member(object_of(*old(m)), key@, optional_json(value)),
{
    proof {
        reveal(with_member);
    }
    match value {
        Some(v) => object_insert(m, key, v),
        None => {},
    }
}

/// Builds the array of strings that stands for a list of texts.
pub(crate) fn texts_value(items: &Vec<String>) -> (v: serde_json::Value)
    ensures
        json_of(v) == text_array(texts(items@)),
{
    let mut values: Vec<serde_json::Value> = Vec::new();
    let mut i: usize = 0;
    while i < items.len()
        invariant
            i <= items.len(),
            values@.len() == i,
            forall|k: int| 0 <= k < i ==> json_of(#[trigger] values@[k]) == Json::Text(items@[k]@),
        decreases items.len() - i,
    {
        values.push(text_value(items[i].as_str()));
        i += 1;
    }
    assert(values_of(values@) =~= texts(items@).map_values(|s: Seq<char>| Json::Text(s)));
    array_value(values)
}

/// Reads a list of texts from the items of an array: `None` unless every
/// item is a string.
pub(crate) fn read_texts(items: &Vec<serde_json::Value>) -> (r: Option<Vec<String>>)
    ensures
        match r {
            Some(list) => json_texts(values_of(items@)) == Some(texts(list@)),
            None => json_texts(values_of(items@)) is None,
        },
{
    let mut list: Vec<String> = Vec::new();
    let mut i: usize = 0;
    while i < items.len()
        invariant
            i <= items.len(),
            list@.len() == i,
            forall|k: int|
                0 <= k < i ==> json_of(#[trigger] items@[k]) == Json::Text(list@[k]@),
        decreases items.len() - i,
    {
        match value_as_str(&items[i]) {
            Some(s) => {
                list.push(s.to_owned());
            },
            None => {
                assert(text_in(values_of(items@)[i as int]) is None);
                return None;
            },
        }
        i += 1;
    }
    proof {
        let docs = values_of(items@);
        assert forall|k: int| 0 <= k < docs.len() implies (#[trigger] text_in(docs[k])) is Some by {
            assert(json_of(items@[k]) == Json::Text(list@[k]@));
        }
        assert(docs.map_values(|j: Json| text_in(j)->Some_0) =~= texts(list@));
    }
    Some(list)
}

} // verus!

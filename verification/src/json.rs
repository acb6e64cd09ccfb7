//! JSON as the compositor speaks it, read and written by `serde_json`.
//!
//! A `serde_json::Value` is opaque to the verifier. What it holds is modelled by [`Json`],
//! and each call into `serde_json` that the library makes has a contract over that model.
//! Those contracts are trusted, not proved.

use vstd::prelude::*;

verus! {

/// What a JSON number holds.
pub enum JsonNumber {
    /// An integer that is zero or more.
    Unsigned(u64),
    /// An integer below zero.
    Negative(i64),
    /// Any other number, by the 64 bits in which `serde_json` keeps it.
    Fraction(u64),
}

/// What a JSON value holds.
pub enum Json {
    Null,
    Bool(bool),
    Number(JsonNumber),
    Text(Seq<char>),
    Array(Seq<Json>),
    Object(Map<Seq<char>, Json>),
}

/// The member of an object that `key` names. None for a missing key or a value that is no object.
pub open spec fn json_member(doc: Json, key: Seq<char>) -> Option<Json> {
    match doc {
        Json::Object(members) => if members.contains_key(key) {
            Some(members[key])
        } else {
            None
        },
        _ => None,
    }
}

/// The number that a value holds, if it is an integer that a `u64` holds.
pub open spec fn json_unsigned(doc: Json) -> Option<u64> {
    match doc {
        Json::Number(JsonNumber::Unsigned(n)) => Some(n),
        _ => None,
    }
}

/// The elements of an array. None for a value that is no array.
pub open spec fn json_items(doc: Json) -> Option<Seq<Json>> {
    match doc {
        Json::Array(items) => Some(items),
        _ => None,
    }
}

/// Whether `doc` is the object whose members are these keys and values.
pub open spec fn object_holds(doc: Json, entries: Seq<(String, serde_json::Value)>) -> bool {
    &&& doc matches Json::Object(members)
    &&& forall|key: Seq<char>|
        members.contains_key(key) <==> exists|i: int|
            0 <= i < entries.len() && #[trigger] entries[i].0@ == key
    &&& forall|i: int|
        0 <= i < entries.len() ==> members[#[trigger] entries[i].0@] == json_model(entries[i].1)
}

/// `serde_json::Value`, a JSON value. Nothing of its inside is known here.
#[verifier::external_type_specification]
#[verifier::external_body]
pub struct ExValue(serde_json::Value);

/// `serde_json::Error`, why a text was not read. Nothing of its inside is known here.
#[verifier::external_type_specification]
#[verifier::external_body]
pub struct ExError(serde_json::Error);

/// What a `serde_json::Value` holds. Two values that hold the same are written the same.
pub uninterp spec fn json_model(value: serde_json::Value) -> Json;

/// What `serde_json::from_str` reads from a text, where it reads a value.
pub uninterp spec fn json_parsed(text: Seq<char>) -> Option<Json>;

/// The text that `serde_json::to_string` writes for a value. It writes the members of an
/// object in the order of their keys, so what the value holds decides the text.
pub uninterp spec fn json_text(doc: Json) -> Seq<char>;

/// `serde_json::from_str`, reading a `serde_json::Value`. Trusted: the value, or the failure
/// to read one, depends on the text alone.
#[verifier::external_body]
pub(crate) fn json_from_str(text: &str) -> (r: Result<serde_json::Value, serde_json::Error>)
    ensures
        match r {
            Ok(value) => json_parsed(text@) == Some(json_model(value)),
            Err(_) => json_parsed(text@) is None,
        },
{
    serde_json::from_str::<serde_json::Value>(text)
}

/// `serde_json::Value::get` with a string key. Trusted: it finds the member of an object
/// that the key names, and nothing in any other value.
#[verifier::external_body]
pub(crate) fn json_get<'a>(value: &'a serde_json::Value, key: &str) -> (r: Option<
    &'a serde_json::Value,
>)
    ensures
        match r {
            Some(member) => json_member(json_model(*value), key@) == Some(json_model(*member)),
            None => json_member(json_model(*value), key@) is None,
        },
{
    value.get(key)
}

/// `serde_json::Value::as_u64`. Trusted: it gives the number of a value that holds an
/// integer from zero up, and nothing for any other value.
#[verifier::external_body]
pub(crate) fn json_as_u64(value: &serde_json::Value) -> (r: Option<u64>)
    ensures
        r == json_unsigned(json_model(*value)),
{
    value.as_u64()
}

/// `serde_json::Value::as_array`. Trusted: it gives the elements of an array in order,
/// and nothing for any other value.
#[verifier::external_body]
pub(crate) fn json_as_array<'a>(value: &'a serde_json::Value) -> (r: Option<
    &'a Vec<serde_json::Value>,
>)
    ensures
        match r {
            Some(items) => json_items(json_model(*value)) == Some(
                Seq::new(items@.len(), |i: int| json_model(items@[i])),
            ),
            None => json_items(json_model(*value)) is None,
        },
{
    value.as_array()
}

/// `serde_json::Value::from` on a `u64`. Trusted: the value holds that number.
#[verifier::external_body]
pub(crate) fn json_from_u64(n: u64) -> (value: serde_json::Value)
    ensures
        json_model(value) == Json::Number(JsonNumber::Unsigned(n)),
{
    serde_json::Value::from(n)
}

/// `serde_json::Value::from` on a `bool`. Trusted: the value holds that truth value.
#[verifier::external_body]
pub(crate) fn json_from_bool(b: bool) -> (value: serde_json::Value)
    ensures
        json_model(value) == Json::Bool(b),
{
    serde_json::Value::from(b)
}

/// `serde_json::Value::from_iter` on keys and values. Trusted: for keys that all differ,
/// the value is the object with these members.
#[verifier::external_body]
pub(crate) fn json_object(entries: Vec<(String, serde_json::Value)>) -> (value: serde_json::Value)
    requires
        forall|i: int, j: int|
            0 <= i < j < entries@.len() ==> #[trigger] entries@[i].0@ != #[trigger] entries@[j].0@,
    ensures
        object_holds(json_model(value), entries@),
{
    entries.into_iter().collect()
}

/// `serde_json::to_string` on a `serde_json::Value`. Trusted: it writes a text, and the
/// text depends on what the value holds alone. It writes into memory, and a value's keys
/// are strings, so neither of the failures that it knows can come about.
#[verifier::external_body]
pub(crate) fn json_to_string(value: &serde_json::Value) -> (r: Result<String, serde_json::Error>)
    ensures
        r is Ok,
        r matches Ok(text) ==> text@ == json_text(json_model(*value)),
{
    serde_json::to_string(value)
}

} // verus!

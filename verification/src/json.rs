//! JSON values of `serde_json`, as far as claims are written to and read from them.
//!
//! A `serde_json::Value` is opaque to the verifier. What it holds is named by
//! [`json_model`]; every function in this module is a thin call into
//! `serde_json` whose contract is taken on trust from that crate's documentation.

use vstd::prelude::*;

verus! {

/// What a JSON value holds.
pub enum JsonModel {
    /// The value `null`.
    Null,
    /// A boolean.
    Bool(bool),
    /// A number held as an integer.
    Integer(int),
    /// Any other number, by the bits of its double-precision form.
    Fraction(u64),
    /// A string.
    Text(Seq<char>),
    /// An array, in order.
    Array(Seq<JsonModel>),
    /// An object: its members by name.
    Object(Map<Seq<char>, JsonModel>),
}

/// `serde_json::Value`, made known so that it can stand in signatures and
/// fields. Nothing inside it is visible; what it holds is [`json_model`].
#[verifier::external_type_specification]
#[verifier::external_body]
pub struct ExJsonValue(serde_json::Value);

/// What a `serde_json::Value` holds.
pub uninterp spec fn json_model(value: serde_json::Value) -> JsonModel;

/// The member of `model` named `name`, where `model` is an object that has one.
pub open spec fn member(model: JsonModel, name: Seq<char>) -> Option<JsonModel> {
    match model {
        JsonModel::Object(members) => if members.contains_key(name) {
            Some(members[name])
        } else {
            None
        },
        _ => None,
    }
}

/// The unsigned 64-bit number that `model` holds, where it holds one.
pub open spec fn unsigned(model: JsonModel) -> Option<u64> {
    match model {
        JsonModel::Integer(n) => if 0 <= n <= u64::MAX {
            Some(n as u64)
        } else {
            None
        },
        _ => None,
    }
}

/// `Value::get` with a string index: the member of that name if the value is an
/// object that has one, nothing otherwise.
#[verifier::external_body]
pub(crate) fn json_member<'a>(value: &'a serde_json::Value, name: &str) -> (found: Option<
    &'a serde_json::Value,
>)
    ensures
        match found {
            Some(inner) => member(json_model(*value), name@) == Some(json_model(*inner)),
            None => member(json_model(*value), name@) is None,
        },
{
    value.get(name)
}

/// `Value::as_str`: the text of a string value, nothing for any other value.
#[verifier::external_body]
pub(crate) fn json_text<'a>(value: &'a serde_json::Value) -> (text: Option<&'a str>)
    ensures
        match text {
            Some(t) => json_model(*value) == JsonModel::Text(t@),
            None => !(json_model(*value) is Text),
        },
{
    value.as_str()
}

/// `Value::as_u64`: the number if the value is an integer from zero to `u64::MAX`,
/// nothing otherwise.
#[verifier::external_body]
pub(crate) fn json_unsigned(value: &serde_json::Value) -> (number: Option<u64>)
    ensures
        number == unsigned(json_model(*value)),
{
    value.as_u64()
}

/// `Value::is_null`: whether the value is `null`.
#[verifier::external_body]
pub(crate) fn json_is_null(value: &serde_json::Value) -> (null: bool)
    ensures
        null == (json_model(*value) is Null),
{
    value.is_null()
}

/// `Value::clone`: a value that holds the same.
#[verifier::external_body]
pub(crate) fn json_clone(value: &serde_json::Value) -> (copy: serde_json::Value)
    ensures
        json_model(copy) == json_model(*value),
{
    value.clone()
}

/// `Value::from` on a string slice: the string value with that text.
#[verifier::external_body]
pub(crate) fn json_from_text(text: &str) -> (value: serde_json::Value)
    ensures
        json_model(value) == JsonModel::Text(text@),
{
    serde_json::Value::from(text)
}

/// `Value::from` on a `u64`: the integer value with that number.
#[verifier::external_body]
pub(crate) fn json_from_unsigned(number: u64) -> (value: serde_json::Value)
    ensures
        json_model(value) == JsonModel::Integer(number as int),
{
    serde_json::Value::from(number)
}

/// `Map::new`, as a value: the object without members.
#[verifier::external_body]
pub(crate) fn json_object() -> (value: serde_json::Value)
    ensures
        json_model(value) == JsonModel::Object(Map::empty()),
{
    serde_json::Value::Object(serde_json::Map::new())
}

/// `Map::insert` on the members of an object: the member named `name` becomes
/// `inner`, whether or not the object had one of that name; the other members
/// stay.
#[verifier::external_body]
pub(crate) fn json_insert(object: &mut serde_json::Value, name: &str, inner: serde_json::Value)
    requires
        json_model(*old(object)) is Object,
    ensures
        json_model(*final(object)) == JsonModel::Object(
            json_model(*old(object))->Object_0.insert(name@, json_model(inner)),
        ),
{
    if let serde_json::Value::Object(members) = object {
        members.insert(name.to_owned(), inner);
    }
}

} // verus!

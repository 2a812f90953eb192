//! JSON documents: their mathematical model, and the `serde_json` calls
//! the publisher relies on, each with the contract it is trusted to meet.
//!
//! A `serde_json::Value` is opaque to the verifier. Everything the rest of
//! the crate knows about one goes through [`json_of`], and every statement
//! about `json_of` in this file is an assumption about `serde_json` (built
//! without `preserve_order` and `arbitrary_precision`), not a theorem.

use vstd::prelude::*;

verus! {

/// A JSON number as a mathematical value.
pub enum JsonNumber {
    /// A whole number kept as an integer; it is written without a fraction.
    Integer(int),
    /// A number kept as a binary float, given by the 64 bits of its encoding.
    Float(u64),
}

/// A JSON document as a mathematical value.
///
/// An object is a map from keys to members: keys are unique and carry no
/// order of their own.
pub enum JsonModel {
    Null,
    Bool(bool),
    Number(JsonNumber),
    String(Seq<char>),
    Array(Seq<JsonModel>),
    Object(Map<Seq<char>, JsonModel>),
}

impl JsonModel {
    /// The members of an object; nothing for any other kind of document.
    pub open spec fn members(self) -> Map<Seq<char>, JsonModel> {
        match self {
            JsonModel::Object(members) => members,
            _ => Map::empty(),
        }
    }

    /// The member under `key`, or `Null` where the document is no object or
    /// has no such member.
    pub open spec fn member(self, key: Seq<char>) -> JsonModel {
        if self.members().contains_key(key) {
            self.members()[key]
        } else {
            JsonModel::Null
        }
    }

    /// The text of a string document.
    pub open spec fn text(self) -> Option<Seq<char>> {
        match self {
            JsonModel::String(text) => Some(text),
            _ => None,
        }
    }

    /// The items of an array document.
    pub open spec fn items(self) -> Option<Seq<JsonModel>> {
        match self {
            JsonModel::Array(items) => Some(items),
            _ => None,
        }
    }

    /// Whether a member can be written into the document: into an object,
    /// or into `Null`, which then counts as the empty object.
    pub open spec fn accepts_members(self) -> bool {
        self is Object || self is Null
    }

    /// The object that has `member` under `key` and is otherwise as `self`.
    pub open spec fn with_member(self, key: Seq<char>, member: JsonModel) -> JsonModel {
        JsonModel::Object(self.members().insert(key, member))
    }

    /// The array of strings with the given texts.
    pub open spec fn strings(texts: Seq<Seq<char>>) -> JsonModel {
        JsonModel::Array(texts.map_values(|text: Seq<char>| JsonModel::String(text)))
    }

    /// Whether the document is an array that holds strings only.
    pub open spec fn is_strings(self) -> bool {
        &&& self is Array
        &&& forall|i: int| 0 <= i < self->Array_0.len() ==> (#[trigger] self->Array_0[i]) is String
    }
}

/// The texts of a sequence of strings.
pub open spec fn texts_of(strings: Seq<String>) -> Seq<Seq<char>> {
    strings.map_values(|string: String| string@)
}

/// The documents held by a sequence of values.
pub open spec fn json_items(values: Seq<serde_json::Value>) -> Seq<JsonModel> {
    values.map_values(|value: serde_json::Value| json_of(value))
}

/// The float number whose value is the whole number `whole`.
pub open spec fn json_float(whole: int) -> JsonModel {
    JsonModel::Number(float_of_whole(whole))
}

/// The integer number `whole`.
pub open spec fn json_integer(whole: int) -> JsonModel {
    JsonModel::Number(JsonNumber::Integer(whole))
}

// ---------------------------------------------------------------------------
// Trusted: the types and functions of `serde_json`.
// ---------------------------------------------------------------------------

/// `serde_json::Value`, carried through as an opaque value.
#[verifier::external_type_specification]
#[verifier::external_body]
pub struct ExValue(serde_json::Value);

/// `serde_json::Error`, carried through as an opaque value.
#[verifier::external_type_specification]
#[verifier::external_body]
pub struct ExError(serde_json::Error);

/// The document that a `serde_json::Value` holds.
pub uninterp spec fn json_of(value: serde_json::Value) -> JsonModel;

/// The document that `serde_json::from_str` reads from a text, or `None`
/// where it rejects the text.
pub uninterp spec fn json_parse(text: Seq<char>) -> Option<JsonModel>;

/// The compact text that `serde_json` writes for a document.
pub uninterp spec fn json_text(document: JsonModel) -> Seq<char>;

/// The number that `serde_json::Number::from_f64` makes of the float
/// converted from a whole number.
pub uninterp spec fn float_of_whole(whole: int) -> JsonNumber;

/// `serde_json::from_str` at type `Value`. It reads a whole text as one JSON
/// document. Assumed: the outcome depends on the text alone.
#[verifier::external_body]
pub(crate) fn value_from_str(text: &str) -> (parsed: Result<
    serde_json::Value,
    serde_json::Error,
>)
    ensures
        parsed matches Ok(value) ==> json_parse(text@) == Some(json_of(value)),
        parsed is Err ==> json_parse(text@) is None,
{
    serde_json::from_str(text)
}

/// `Value`'s `to_string`, which writes the compact form. Assumed: the text
/// depends on the document alone.
#[verifier::external_body]
pub(crate) fn value_to_string(value: &serde_json::Value) -> (text: String)
    ensures
        text@ == json_text(json_of(*value)),
{
    value.to_string()
}

/// `serde_json::from_value` at type `Vec<String>`. Assumed: it succeeds
/// exactly on an array of strings and then returns their texts in order.
#[verifier::external_body]
pub(crate) fn strings_from_value(value: serde_json::Value) -> (list: Result<
    Vec<String>,
    serde_json::Error,
>)
    ensures
        list is Ok <==> json_of(value).is_strings(),
        list matches Ok(texts) ==> json_of(value) == JsonModel::strings(texts_of(texts@)),
{
    serde_json::from_value(value)
}

/// `Value`'s indexing by a string key (`value[key]`). Assumed: it yields the
/// member under the key, and `Null` where the value is no object or has no
/// such member.
#[verifier::external_body]
pub(crate) fn value_member<'a>(value: &'a serde_json::Value, key: &str) -> (member:
    &'a serde_json::Value)
    ensures
        json_of(*member) == json_of(*value).member(key@),
{
    &value[key]
}

/// `Value`'s assignment through a string key (`object[key] = member`).
/// It panics unless the value is an object or `Null`. Assumed: it inserts
/// or replaces the one member and turns `Null` into an object first.
#[verifier::external_body]
pub(crate) fn value_set_member(object: &mut serde_json::Value, key: &str, member: serde_json::Value)
    requires
        json_of(*old(object)).accepts_members(),
    ensures
        json_of(*final(object)) == json_of(*old(object)).with_member(key@, json_of(member)),
{
    object[key] = member;
}

/// `Value::Object` around `Map::new()`: the object without members.
#[verifier::external_body]
pub(crate) fn value_object() -> (value: serde_json::Value)
    ensures
        json_of(value) == JsonModel::Object(Map::empty()),
{
    serde_json::Value::Object(serde_json::Map::new())
}

/// `Value::Array`: the array of the given values, in their order.
#[verifier::external_body]
pub(crate) fn value_array(items: Vec<serde_json::Value>) -> (value: serde_json::Value)
    ensures
        json_of(value) == JsonModel::Array(json_items(items@)),
{
    serde_json::Value::Array(items)
}

/// `Value::String`: the string with the given text.
#[verifier::external_body]
pub(crate) fn value_string(text: String) -> (value: serde_json::Value)
    ensures
        json_of(value) == JsonModel::String(text@),
{
    serde_json::Value::String(text)
}

/// `Value::Bool`.
#[verifier::external_body]
pub(crate) fn value_bool(flag: bool) -> (value: serde_json::Value)
    ensures
        json_of(value) == JsonModel::Bool(flag),
{
    serde_json::Value::Bool(flag)
}

/// `Value::from` at `i32`: a number kept as an integer.
#[verifier::external_body]
pub(crate) fn value_integer(whole: i32) -> (value: serde_json::Value)
    ensures
        json_of(value) == JsonModel::Number(JsonNumber::Integer(whole as int)),
{
    serde_json::Value::from(whole)
}

/// `Number::from_f64` on the float converted from `whole`, made a `Value`
/// as `Value::from` does for a float. Every `i32` converts to a finite
/// float, so the result is a number, and it is kept as a float.
#[verifier::external_body]
pub(crate) fn value_float(whole: i32) -> (value: serde_json::Value)
    ensures
        json_of(value) == JsonModel::Number(float_of_whole(whole as int)),
        json_of(value)->Number_0 is Float,
{
    serde_json::Number::from_f64(whole.into()).map_or(
        serde_json::Value::Null,
        serde_json::Value::Number,
    )
}

/// `Value::as_str`: the text of a string, `None` for any other value.
pub assume_specification<'a>[ serde_json::Value::as_str ](value: &'a serde_json::Value) -> (text:
    Option<&'a str>)
    ensures
        match text {
            Some(text) => json_of(*value) == JsonModel::String(text@),
            None => !(json_of(*value) is String),
        },
;

/// `Value::as_array`: the items of an array, `None` for any other value.
pub assume_specification<'a>[ serde_json::Value::as_array ](value: &'a serde_json::Value) -> (items:
    Option<&'a Vec<serde_json::Value>>)
    ensures
        match items {
            Some(items) => json_of(*value) == JsonModel::Array(json_items(items@)),
            None => !(json_of(*value) is Array),
        },
;

/// `Value::is_object`.
pub assume_specification[ serde_json::Value::is_object ](value: &serde_json::Value) -> (yes: bool)
    ensures
        yes == (json_of(*value) is Object),
;

/// `Value::is_null`.
pub assume_specification[ serde_json::Value::is_null ](value: &serde_json::Value) -> (yes: bool)
    ensures
        yes == (json_of(*value) is Null),
;

/// `Value`'s `clone`: a value that holds the same document.
pub assume_specification[ <serde_json::Value as Clone>::clone ](
    value: &serde_json::Value,
) -> (copy: serde_json::Value)
    ensures
        json_of(copy) == json_of(*value),
;

} // verus!

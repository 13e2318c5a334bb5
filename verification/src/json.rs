//! JSON values.
//!
//! The values themselves are `serde_json`'s, and so are reading them from
//! text and writing them as text. This module gives the values a
//! mathematical model, [`Json`], and states over that model what the few
//! operations of `serde_json` that the envelopes need do. Those statements
//! are taken from `serde_json`'s source and are not proved here; everything
//! else in the crate is proved from them.
//!
//! `serde_json` is built with `preserve_order`: an object keeps its members
//! in the order in which they were put in.

use vstd::prelude::*;

verus! {

/// A JSON number.
pub enum JsonNumber {
    /// An integer that `serde_json` holds as an integer.
    Integer(int),
    /// Any other number, by the digits that `serde_json` prints for it.
    Real(Seq<char>),
}

/// A JSON value. The members of an object stand in the order in which the
/// object holds them, which is the order in which they are written out.
pub enum Json {
    Null,
    Bool(bool),
    Number(JsonNumber),
    Str(Seq<char>),
    Array(Seq<Json>),
    Object(Seq<(Seq<char>, Json)>),
}

impl Json {
    /// The first member of `members` under `key`.
    pub open spec fn lookup(members: Seq<(Seq<char>, Json)>, key: Seq<char>) -> Option<Json>
        decreases members.len(),
    {
        if members.len() == 0 {
            None
        } else if members[0].0 == key {
            Some(members[0].1)
        } else {
            Json::lookup(members.drop_first(), key)
        }
    }

    /// The member of this value under `key`, where this value is an object
    /// that has one.
    pub open spec fn member(self, key: Seq<char>) -> Option<Json> {
        match self {
            Json::Object(members) => Json::lookup(members, key),
            _ => None,
        }
    }
}

/// Whether no key occurs twice among `members`.
pub open spec fn distinct_keys(members: Seq<(String, serde_json::Value)>) -> bool {
    forall|i: int, j: int|
        0 <= i < j < members.len() ==> (#[trigger] members[i]).0@ != (#[trigger] members[j]).0@
}

/// The members of an object that is made of `members`.
pub open spec fn members_model(members: Seq<(String, serde_json::Value)>) -> Seq<(Seq<char>, Json)> {
    Seq::new(members.len(), |i: int| (members[i].0@, json_model(members[i].1)))
}

/// What `render` came back with, over the model.
pub open spec fn text_outcome(outcome: Result<Vec<u8>, String>) -> Result<Seq<u8>, Seq<char>> {
    match outcome {
        Ok(text) => Ok(text@),
        Err(message) => Err(message@),
    }
}

/// What `parse` came back with, over the model.
pub open spec fn value_outcome(outcome: Result<serde_json::Value, String>) -> Result<Json, Seq<char>> {
    match outcome {
        Ok(value) => Ok(json_model(value)),
        Err(message) => Err(message@),
    }
}

/// `serde_json::Value`, a JSON value. What is inside it is known only
/// through [`json_model`].
#[verifier::external_type_specification]
#[verifier::external_body]
pub struct ExValue(serde_json::Value);

/// The JSON value that a `serde_json::Value` holds: what its variant and
/// the fields of its variant are, member by member.
pub uninterp spec fn json_model(value: serde_json::Value) -> Json;

/// What `serde_json::from_slice` makes of a text: the value that it reads,
/// or the message of the error that it refuses the text with.
pub uninterp spec fn json_parse(text: Seq<u8>) -> Result<Json, Seq<char>>;

/// What `serde_json::to_vec` makes of a value: its compact JSON text, or
/// the message of the error that it fails with.
pub uninterp spec fn json_text(value: Json) -> Result<Seq<u8>, Seq<char>>;

/// `serde_json::from_slice`, read as a `serde_json::Value`. It returns the
/// value that the text denotes, or the message of its error; which of the
/// two, and what it holds, depends on the text alone.
#[verifier::external_body]
pub(crate) fn parse(text: &[u8]) -> (parsed: Result<serde_json::Value, String>)
    ensures
        value_outcome(parsed) == json_parse(text@),
{
    match serde_json::from_slice::<serde_json::Value>(text) {
        Ok(value) => Ok(value),
        Err(error) => Err(error.to_string()),
    }
}

/// `serde_json::to_vec` on a `serde_json::Value`. It returns the compact
/// JSON text of the value, or the message of its error; which of the two,
/// and what it holds, depends on the value alone.
#[verifier::external_body]
pub(crate) fn render(value: &serde_json::Value) -> (rendered: Result<Vec<u8>, String>)
    ensures
        text_outcome(rendered) == json_text(json_model(*value)),
{
    match serde_json::to_vec(value) {
        Ok(text) => Ok(text),
        Err(error) => Err(error.to_string()),
    }
}

/// `serde_json::Value::get` with a string. It returns the member of an
/// object under that key, and nothing where the value is no object or has
/// no such member.
#[verifier::external_body]
pub(crate) fn member<'a>(value: &'a serde_json::Value, key: &str) -> (found: Option<
    &'a serde_json::Value,
>)
    ensures
        match json_model(*value).member(key@) {
            Some(m) => found matches Some(v) && json_model(*v) == m,
            None => found is None,
        },
{
    value.get(key)
}

/// `serde_json::Value::from` on a string slice. It makes the JSON string
/// with that text.
#[verifier::external_body]
pub(crate) fn string_value(text: &str) -> (value: serde_json::Value)
    ensures
        json_model(value) == Json::Str(text@),
{
    serde_json::Value::from(text)
}

/// `serde_json::Value::Object` on the map that `serde_json::Map` collects
/// from the members. Where no key occurs twice, the object holds the
/// members as they are given, in that order (a map with `preserve_order`
/// keeps the order of insertion).
#[verifier::external_body]
pub(crate) fn object_of(members: Vec<(String, serde_json::Value)>) -> (object: serde_json::Value)
    requires
        distinct_keys(members@),
    ensures
        json_model(object) == Json::Object(members_model(members@)),
{
    serde_json::Value::Object(members.into_iter().collect())
}

/// `serde_json::Value::is_null`: whether the value is `null`.
pub assume_specification[ serde_json::Value::is_null ](value: &serde_json::Value) -> (null: bool)
    ensures
        null == (json_model(*value) is Null),
;

/// `serde_json::Value::is_object`: whether the value is an object.
pub assume_specification[ serde_json::Value::is_object ](value: &serde_json::Value) -> (object:
    bool)
    ensures
        object == (json_model(*value) is Object),
;

/// `serde_json::Value::as_str`: the text of a string, and nothing for any
/// other value.
pub assume_specification<'a>[ serde_json::Value::as_str ](value: &'a serde_json::Value) -> (text:
    Option<&'a str>)
    ensures
        match json_model(*value) {
            Json::Str(s) => text matches Some(t) && t@ == s,
            _ => text is None,
        },
;

/// `serde_json::Value::as_i64`: the integer of a number that is an integer
/// in the range of `i64`, and nothing for any other value.
pub assume_specification[ serde_json::Value::as_i64 ](value: &serde_json::Value) -> (integer:
    Option<i64>)
    ensures
        match json_model(*value) {
            Json::Number(JsonNumber::Integer(n)) if i64::MIN <= n <= i64::MAX => integer == Some(
                n as i64,
            ),
            _ => integer is None,
        },
;

/// `Clone::clone` on a `serde_json::Value`: a value that holds the same.
pub assume_specification[ <serde_json::Value as Clone>::clone ](
    value: &serde_json::Value,
) -> (copy: serde_json::Value)
    ensures
        json_model(copy) == json_model(*value),
;

} // verus!

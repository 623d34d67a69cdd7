//! JSON documents: the mathematical model that the contracts speak of, and
//! the few operations of `serde_json` that the library relies on.

use serde_json::Value;
use vstd::prelude::*;

verus! {

/// What a JSON value is to this library. Only strings and objects are ever
/// looked into; `Other` stands for null, a boolean, a number or an array.
pub enum Json {
    Text(Seq<char>),
    Object(Map<Seq<char>, Json>),
    Other,
}

impl Json {
    /// The member stored under `key`, if this is an object that has one.
    pub open spec fn field(self, key: Seq<char>) -> Option<Json> {
        match self {
            Json::Object(members) => if members.contains_key(key) {
                Some(members[key])
            } else {
                None
            },
            _ => None,
        }
    }

    /// The member reached by `first` and then `second`.
    pub open spec fn field2(self, first: Seq<char>, second: Seq<char>) -> Option<Json> {
        match self.field(first) {
            Some(inner) => inner.field(second),
            None => None,
        }
    }

    /// The characters of a string value.
    pub open spec fn text(self) -> Option<Seq<char>> {
        match self {
            Json::Text(chars) => Some(chars),
            _ => None,
        }
    }
}

/// `serde_json::Value`, opaque to the verifier.
#[verifier::external_type_specification]
#[verifier::external_body]
pub struct ExValue(serde_json::Value);

/// `serde_json::Map`, opaque to the verifier.
#[verifier::external_type_specification]
#[verifier::external_body]
#[verifier::reject_recursive_types(K)]
#[verifier::reject_recursive_types(V)]
pub struct ExMap<K, V>(serde_json::Map<K, V>);

/// The document that a `serde_json::Value` holds.
pub uninterp spec fn json_of(value: Value) -> Json;

/// The members that a `serde_json::Map` holds, by key.
pub uninterp spec fn members_of(members: serde_json::Map<String, Value>) -> Map<Seq<char>, Json>;

/// The members of the object `{}`.
pub open spec fn empty_members() -> Map<Seq<char>, Json> {
    Map::empty()
}

/// Model of an optional borrowed value.
pub open spec fn json_of_opt(value: Option<&Value>) -> Option<Json> {
    match value {
        Some(v) => Some(json_of(*v)),
        None => None,
    }
}

/// Model of an optional borrowed string.
pub open spec fn chars_of_opt(text: Option<&str>) -> Option<Seq<char>> {
    match text {
        Some(t) => Some(t@),
        None => None,
    }
}

/// `serde_json::Value::get` with a string index. Trusted: the result is the
/// member under `key` when the value is an object that holds that key, and
/// `None` for every other value.
#[verifier::external_body]
pub(crate) fn member<'a>(value: &'a Value, key: &str) -> (found: Option<&'a Value>)
    ensures
        json_of_opt(found) == json_of(*value).field(key@),
{
    value.get(key)
}

/// `serde_json::Value::as_str`. Trusted: the result is the string's text when
/// the value is a string, and `None` for every other value.
#[verifier::external_body]
pub(crate) fn text<'a>(value: &'a Value) -> (chars: Option<&'a str>)
    ensures
        chars_of_opt(chars) == json_of(*value).text(),
{
    value.as_str()
}

/// The variant `serde_json::Value::String`. Trusted: the result is the string
/// value with the given text.
#[verifier::external_body]
pub(crate) fn text_value(text: String) -> (value: Value)
    ensures
        json_of(value) == Json::Text(text@),
{
    Value::String(text)
}

/// The variant `serde_json::Value::Object`. Trusted: the result is the object
/// with exactly the given members.
#[verifier::external_body]
pub(crate) fn object_value(members: serde_json::Map<String, Value>) -> (value: Value)
    ensures
        json_of(value) == Json::Object(members_of(members)),
{
    Value::Object(members)
}

/// `serde_json::Map::new`. Trusted: the result has no members.
#[verifier::external_body]
pub(crate) fn no_members() -> (members: serde_json::Map<String, Value>)
    ensures
        members_of(members) == empty_members(),
{
    serde_json::Map::new()
}

/// `serde_json::Map::insert`. Trusted: afterwards `key` maps to `value`, and
/// every other key is as it was.
#[verifier::external_body]
pub(crate) fn put(members: &mut serde_json::Map<String, Value>, key: String, value: Value)
    ensures
        members_of(*final(members)) == members_of(*old(members)).insert(key@, json_of(value)),
{
    members.insert(key, value);
}

/// Whether two strings hold the same characters.
pub fn same_text(left: &str, right: &str) -> (same: bool)
    ensures
        same == (left@ == right@),
{
    let l = left.to_owned();
    let r = right.to_owned();
    l == r
}

/// The member reached by `first` and then `second`, if both exist.
pub fn member2<'a>(value: &'a Value, first: &str, second: &str) -> (found: Option<&'a Value>)
    ensures
        json_of_opt(found) == json_of(*value).field2(first@, second@),
{
    match member(value, first) {
        Some(inner) => member(inner, second),
        None => None,
    }
}

/// The object `{ key: value }`.
pub fn object_of_one(key: &str, value: Value) -> (object: Value)
    ensures
        json_of(object) == Json::Object(map![key@ => json_of(value)]),
{
    let mut members = no_members();
    put(&mut members, key.to_owned(), value);
    object_value(members)
}

} // verus!

//! The boundary to `serde_json`: its `Value` is carried as an opaque type, and
//! what a value holds is told by a mathematical tree that the accessors are
//! stated over.

use serde_json::Value;
use vstd::prelude::*;

verus! {

/// `serde_json::Value`, opaque to the verifier.
#[verifier::external_type_specification]
#[verifier::external_body]
pub struct ExValue(serde_json::Value);

/// A JSON number, by the three forms in which `serde_json` holds one.
pub enum JsonNumber {
    /// A non-negative integer.
    Unsigned(u64),
    /// A negative integer.
    Negative(i64),
    /// Any other number, as the bit pattern of its binary64 form.
    Real(u64),
}

/// What a JSON value holds.
pub enum JsonTree {
    Null,
    Bool(bool),
    Number(JsonNumber),
    Text(Seq<char>),
    Array(Seq<JsonTree>),
    Object(Map<Seq<char>, JsonTree>),
}

/// The tree that a `Value` holds.
pub uninterp spec fn json_tree(value: Value) -> JsonTree;

/// The tree that `serde_json` reads from a text, where it accepts the text.
pub uninterp spec fn parsed_json(text: Seq<char>) -> Option<JsonTree>;

/// The compact text that `serde_json` writes for a tree.
pub uninterp spec fn json_text(tree: JsonTree) -> Seq<char>;

impl JsonTree {
    /// The member of an object under `key`.
    pub open spec fn member(self, key: Seq<char>) -> Option<JsonTree> {
        match self {
            JsonTree::Object(members) => if members.contains_key(key) {
                Some(members[key])
            } else {
                None
            },
            _ => None,
        }
    }

    /// The text of a string value.
    pub open spec fn text(self) -> Option<Seq<char>> {
        match self {
            JsonTree::Text(t) => Some(t),
            _ => None,
        }
    }

    /// The value of a boolean.
    pub open spec fn flag(self) -> Option<bool> {
        match self {
            JsonTree::Bool(b) => Some(b),
            _ => None,
        }
    }

    /// The value of a number that is a non-negative integer.
    pub open spec fn unsigned(self) -> Option<u64> {
        match self {
            JsonTree::Number(JsonNumber::Unsigned(n)) => Some(n),
            _ => None,
        }
    }

    /// The items of an array.
    pub open spec fn items(self) -> Option<Seq<JsonTree>> {
        match self {
            JsonTree::Array(items) => Some(items),
            _ => None,
        }
    }
}

/// `serde_json::from_str` at `Value`: the value read from `text`, or `None`
/// where the text is not one JSON value.
#[verifier::external_body]
pub(crate) fn parse(text: &str) -> (value: Option<Value>)
    ensures
        match value {
            Some(v) => parsed_json(text@) == Some(json_tree(v)),
            None => parsed_json(text@) is None,
        },
{
    serde_json::from_str::<Value>(text).ok()
}

/// `Value::get` with a string index: the member of an object under `key`, and
/// `None` for a value that is no object or has no such member.
#[verifier::external_body]
pub(crate) fn get<'a>(value: &'a Value, key: &str) -> (found: Option<&'a Value>)
    ensures
        match found {
            Some(v) => json_tree(*value).member(key@) == Some(json_tree(*v)),
            None => json_tree(*value).member(key@) is None,
        },
{
    value.get(key)
}

/// `Value::as_str`: the text of a string value, `None` for any other value.
#[verifier::external_body]
pub(crate) fn as_str<'a>(value: &'a Value) -> (text: Option<&'a str>)
    ensures
        match text {
            Some(t) => json_tree(*value).text() == Some(t@),
            None => json_tree(*value).text() is None,
        },
{
    value.as_str()
}

/// `Value::as_bool`: the value of a boolean, `None` for any other value.
#[verifier::external_body]
pub(crate) fn as_bool(value: &Value) -> (flag: Option<bool>)
    ensures
        flag == json_tree(*value).flag(),
{
    value.as_bool()
}

/// `Value::as_u64`: the value of a number held as a non-negative integer,
/// `None` for any other value.
#[verifier::external_body]
pub(crate) fn as_u64(value: &Value) -> (number: Option<u64>)
    ensures
        number == json_tree(*value).unsigned(),
{
    value.as_u64()
}

/// `Value::as_array`: the items of an array, `None` for any other value.
#[verifier::external_body]
pub(crate) fn as_array<'a>(value: &'a Value) -> (items: Option<&'a Vec<Value>>)
    ensures
        match items {
            Some(v) => json_tree(*value).items() == Some(v@.map_values(|item: Value| json_tree(item))),
            None => json_tree(*value).items() is None,
        },
{
    value.as_array()
}

/// `Value::Null`.
#[verifier::external_body]
pub(crate) fn null() -> (value: Value)
    ensures
        json_tree(value) == JsonTree::Null,
{
    Value::Null
}

/// `Value::from` at `&str`: the string value with the given text.
#[verifier::external_body]
pub(crate) fn string(text: &str) -> (value: Value)
    ensures
        json_tree(value) == JsonTree::Text(text@),
{
    Value::from(text)
}

/// `Value::from` at `u64`: the number that holds `n` as a non-negative
/// integer.
#[verifier::external_body]
pub(crate) fn number(n: u64) -> (value: Value)
    ensures
        json_tree(value) == JsonTree::Number(JsonNumber::Unsigned(n)),
{
    Value::from(n)
}

/// `Map::new` as a `Value`: the object without members.
#[verifier::external_body]
pub(crate) fn object() -> (value: Value)
    ensures
        json_tree(value) == JsonTree::Object(Map::empty()),
{
    Value::Object(serde_json::Map::new())
}

/// `Map::insert` on the members of an object: `child` stands under `key`,
/// in place of what stood there, and the other members are as they were.
#[verifier::external_body]
pub(crate) fn with_member(object: Value, key: &str, child: Value) -> (value: Value)
    requires
        json_tree(object) is Object,
    ensures
        json_tree(value) == JsonTree::Object(
            json_tree(object)->Object_0.insert(key@, json_tree(child)),
        ),
{
    let mut object = object;
    if let Value::Object(members) = &mut object {
        members.insert(key.to_owned(), child);
    }
    object
}

/// The `Display` of `Value`, through `to_string`: the value written as
/// compact JSON.
#[verifier::external_body]
pub(crate) fn to_text(value: &Value) -> (text: String)
    ensures
        text@ == json_text(json_tree(*value)),
{
    value.to_string()
}

} // verus!

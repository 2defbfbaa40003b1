//! JSON values, as far as the logic reads and builds them.
use serde_json::Value;
use vstd::prelude::*;

verus! {

/// `serde_json::Value`, carried as an opaque value.
#[verifier::external_type_specification]
#[verifier::external_body]
pub struct ExValue(Value);

/// What a JSON value holds. `Real` stands for the bits of a number that is not an integer.
pub enum JsonTree {
    Null,
    Bool(bool),
    Integer(int),
    Real(u64),
    Text(Seq<char>),
    List(Seq<JsonTree>),
    Object(Map<Seq<char>, JsonTree>),
}

/// What a `serde_json::Value` holds.
pub uninterp spec fn json_tree(v: Value) -> JsonTree;

/// What `serde_json::from_str` reads from a text, if the text is a JSON document.
pub uninterp spec fn json_parsed(text: Seq<char>) -> Option<JsonTree>;

/// The compact text that `serde_json::Value` prints.
pub uninterp spec fn json_rendered(tree: JsonTree) -> Seq<char>;

/// The member of an object under `key`.
pub open spec fn tree_member(t: JsonTree, key: Seq<char>) -> Option<JsonTree> {
    match t {
        JsonTree::Object(m) => if m.dom().contains(key) {
            Some(m[key])
        } else {
            None
        },
        _ => None,
    }
}

/// The text of a JSON string.
pub open spec fn tree_text(t: JsonTree) -> Option<Seq<char>> {
    match t {
        JsonTree::Text(s) => Some(s),
        _ => None,
    }
}

/// The text of the member under `key`, where that is a JSON string.
pub open spec fn member_text(t: JsonTree, key: Seq<char>) -> Option<Seq<char>> {
    match tree_member(t, key) {
        Some(m) => tree_text(m),
        None => None,
    }
}

/// `serde_json::from_str` reads a JSON document from a text, or fails.
#[verifier::external_body]
pub(crate) fn parse_value(text: &str) -> (r: Option<Value>)
    ensures
        match r {
            Some(v) => json_parsed(text@) == Some(json_tree(v)),
            None => json_parsed(text@) is None,
        },
{
    serde_json::from_str(text).ok()
}

/// `Value::to_string` prints the value without spaces; equal values print the same text.
#[verifier::external_body]
pub(crate) fn render_value(v: &Value) -> (r: String)
    ensures
        r@ == json_rendered(json_tree(*v)),
{
    v.to_string()
}

/// `Value::get` with a text finds the member of an object, and nothing in any other value.
#[verifier::external_body]
pub(crate) fn value_member<'a>(v: &'a Value, key: &str) -> (r: Option<&'a Value>)
    ensures
        match r {
            Some(w) => tree_member(json_tree(*v), key@) == Some(json_tree(*w)),
            None => tree_member(json_tree(*v), key@) is None,
        },
{
    v.get(key)
}

/// `Value::as_str` gives the text of a JSON string, and nothing for any other value.
#[verifier::external_body]
pub(crate) fn value_text<'a>(v: &'a Value) -> (r: Option<&'a str>)
    ensures
        match r {
            Some(s) => tree_text(json_tree(*v)) == Some(s@),
            None => tree_text(json_tree(*v)) is None,
        },
{
    v.as_str()
}

/// `Value::as_bool` gives the value of a JSON boolean, and nothing for any other value.
#[verifier::external_body]
pub(crate) fn value_bool(v: &Value) -> (r: Option<bool>)
    ensures
        match r {
            Some(b) => json_tree(*v) == JsonTree::Bool(b),
            None => !(json_tree(*v) is Bool),
        },
{
    v.as_bool()
}

/// `Value::clone` holds what its original holds.
#[verifier::external_body]
pub(crate) fn value_clone(v: &Value) -> (r: Value)
    ensures
        json_tree(r) == json_tree(*v),
{
    v.clone()
}

/// `Value::String` holds the given text.
#[verifier::external_body]
pub(crate) fn text_value(s: &str) -> (r: Value)
    ensures
        json_tree(r) == JsonTree::Text(s@),
{
    Value::String(s.to_string())
}

/// `Value::Bool` holds the given boolean.
#[verifier::external_body]
pub(crate) fn bool_value(b: bool) -> (r: Value)
    ensures
        json_tree(r) == JsonTree::Bool(b),
{
    Value::Bool(b)
}

/// `Value::Null`.
#[verifier::external_body]
pub(crate) fn null_value() -> (r: Value)
    ensures
        json_tree(r) == JsonTree::Null,
{
    Value::Null
}

/// `Value::from` on an unsigned integer holds that integer.
#[verifier::external_body]
pub(crate) fn unsigned_value(n: u64) -> (r: Value)
    ensures
        json_tree(r) == JsonTree::Integer(n as int),
{
    Value::from(n)
}

/// `Value::from` on a signed integer holds that integer.
#[verifier::external_body]
pub(crate) fn signed_value(n: i64) -> (r: Value)
    ensures
        json_tree(r) == JsonTree::Integer(n as int),
{
    Value::from(n)
}

/// `serde_json::Map::new` has no members.
#[verifier::external_body]
pub(crate) fn empty_object() -> (r: Value)
    ensures
        json_tree(r) == JsonTree::Object(Map::empty()),
{
    Value::Object(serde_json::Map::new())
}

/// `serde_json::Map::insert` adds a member to an object, or gives the member that has the key a new
/// value.
#[verifier::external_body]
pub(crate) fn insert_member(object: &mut Value, key: &str, value: Value)
    requires
        json_tree(*old(object)) is Object,
    ensures
        json_tree(*final(object)) == JsonTree::Object(
            json_tree(*old(object))->Object_0.insert(key@, json_tree(value)),
        ),
{
    if let Value::Object(members) = object {
        members.insert(key.to_string(), value);
    }
}

/// An object with one member.
pub fn single_value(key: &str, value: Value) -> (r: Value)
    ensures
        json_tree(r) == JsonTree::Object(map![key@ => json_tree(value)]),
{
    let mut object = empty_object();
    insert_member(&mut object, key, value);
    object
}

/// An object with one member, a text.
pub fn text_member(key: &str, text: &str) -> (r: Value)
    ensures
        json_tree(r) == JsonTree::Object(map![key@ => JsonTree::Text(text@)]),
{
    single_value(key, text_value(text))
}

/// The text of the member under `key`, where there is one and it is a JSON string.
pub fn text_at(v: &Value, key: &str) -> (r: Option<String>)
    ensures
        match r {
            Some(s) => member_text(json_tree(*v), key@) == Some(s@),
            None => member_text(json_tree(*v), key@) is None,
        },
{
    match value_member(v, key) {
        Some(m) => match value_text(m) {
            Some(s) => Some(s.to_owned()),
            None => None,
        },
        None => None,
    }
}

/// An object with the two given members, of which the second wins where the keys are the same.
pub fn pair_value(key: &str, value: Value, key2: &str, value2: Value) -> (r: Value)
    ensures
        json_tree(r) == JsonTree::Object(
            map![key@ => json_tree(value), key2@ => json_tree(value2)],
        ),
{
    let mut object = empty_object();
    insert_member(&mut object, key, value);
    insert_member(&mut object, key2, value2);
    object
}

} // verus!

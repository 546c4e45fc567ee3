//! JSON documents, read and written by the `serde_json` crate.
//!
//! A document is opaque to the verifier. What it holds is told by the
//! mathematical tree [`JsonTree`]; reading a text and writing a tree are
//! functions without a definition here, and the items of this module state
//! how the calls into `serde_json` relate to them. They speak of the crate
//! as it is built without its features `preserve_order` and
//! `arbitrary_precision`: an object keeps its members by key alone, and a
//! number is one of the three forms of [`JsonNumber`].

use vstd::prelude::*;

verus! {

#[verifier::external_type_specification]
#[verifier::external_body]
pub struct ExValue(serde_json::Value);

#[verifier::external_type_specification]
#[verifier::external_body]
#[verifier::reject_recursive_types(K)]
#[verifier::reject_recursive_types(V)]
pub struct ExMap<K, V>(serde_json::Map<K, V>);

/// A JSON number, in the three forms in which a document holds one: an
/// integer that is not negative, a negative integer, and any other number,
/// told by the bits of its double-precision form.
pub enum JsonNumber {
    Unsigned(u64),
    Negative(i64),
    Float(u64),
}

/// A JSON value as a mathematical tree. An object maps each of its keys to
/// one value.
pub enum JsonTree {
    Null,
    Bool(bool),
    Number(JsonNumber),
    Text(Seq<char>),
    Array(Seq<JsonTree>),
    Object(Map<Seq<char>, JsonTree>),
}

/// The tree that a `serde_json::Value` holds.
pub uninterp spec fn json_tree(value: serde_json::Value) -> JsonTree;

/// The members that a `serde_json::Map` holds, each under its key.
pub uninterp spec fn object_members(object: serde_json::Map<String, serde_json::Value>) -> Map<
    Seq<char>,
    JsonTree,
>;

/// What `serde_json::from_str` reads a text as: the document's tree, or
/// nothing where it rejects the text.
pub uninterp spec fn parsed_json(text: Seq<char>) -> Option<JsonTree>;

/// What `serde_json::to_string` writes for a tree: the text, or nothing where
/// it fails.
pub uninterp spec fn rendered_json(tree: JsonTree) -> Option<Seq<char>>;

/// The members of an object that has none.
pub open spec fn no_members() -> Map<Seq<char>, JsonTree> {
    Map::empty()
}

/// The members of the object that a text reads as, or nothing where the text
/// is no JSON or its document is no object.
pub open spec fn parsed_object(text: Seq<char>) -> Option<Map<Seq<char>, JsonTree>> {
    match parsed_json(text) {
        Some(JsonTree::Object(members)) => Some(members),
        _ => None,
    }
}

/// The member under `key` where it is a boolean.
pub open spec fn bool_member(members: Map<Seq<char>, JsonTree>, key: Seq<char>) -> Option<bool> {
    if members.contains_key(key) {
        match members[key] {
            JsonTree::Bool(flag) => Some(flag),
            _ => None,
        }
    } else {
        None
    }
}

/// The member under `key` where it is a string.
pub open spec fn text_member(members: Map<Seq<char>, JsonTree>, key: Seq<char>) -> Option<
    Seq<char>,
> {
    if members.contains_key(key) {
        match members[key] {
            JsonTree::Text(text) => Some(text),
            _ => None,
        }
    } else {
        None
    }
}

/// The member under `key` where it is an integer from 0 to 2^64 - 1.
pub open spec fn unsigned_member(members: Map<Seq<char>, JsonTree>, key: Seq<char>) -> Option<
    u64,
> {
    if members.contains_key(key) {
        match members[key] {
            JsonTree::Number(JsonNumber::Unsigned(n)) => Some(n),
            _ => None,
        }
    } else {
        None
    }
}

/// Whether the values hold the trees, one each and in their order.
pub open spec fn trees_of(values: Seq<serde_json::Value>, trees: Seq<JsonTree>) -> bool {
    &&& values.len() == trees.len()
    &&& forall|i: int| 0 <= i < values.len() ==> json_tree(#[trigger] values[i]) == trees[i]
}

/// Whether the names are the members of the set, all of them.
pub open spec fn names_cover(names: Seq<String>, keys: Set<Seq<char>>) -> bool {
    forall|key: Seq<char>|
        keys.contains(key) <==> exists|i: int| 0 <= i < names.len() && (#[trigger] names[i])@ == key
}

/// Whether no name occurs twice.
pub open spec fn names_differ(names: Seq<String>) -> bool {
    forall|i: int, j: int|
        0 <= i < j < names.len() ==> (#[trigger] names[i])@ != (#[trigger] names[j])@
}

/// `serde_json::from_str` at the type `serde_json::Value`: the value that
/// the text reads as, or nothing where the text is rejected.
#[verifier::external_body]
pub(crate) fn parse(text: &str) -> (r: Option<serde_json::Value>)
    ensures
        match r {
            Some(value) => parsed_json(text@) == Some(json_tree(value)),
            None => parsed_json(text@) is None,
        },
{
    serde_json::from_str::<serde_json::Value>(text).ok()
}

/// The variant `Object` of `serde_json::Value`: the object that the value
/// is, and nothing for a value of another kind.
#[verifier::external_body]
pub(crate) fn into_object(value: serde_json::Value) -> (r: Option<
    serde_json::Map<String, serde_json::Value>,
>)
    ensures
        match json_tree(value) {
            JsonTree::Object(members) => r matches Some(object) && object_members(object)
                == members,
            _ => r is None,
        },
{
    match value {
        serde_json::Value::Object(object) => Some(object),
        _ => None,
    }
}

/// `serde_json::Value::as_object` gives the object that the value is, and
/// nothing for a value of another kind.
pub assume_specification<'a>[ serde_json::Value::as_object ](
    value: &'a serde_json::Value,
) -> (r: Option<&'a serde_json::Map<String, serde_json::Value>>)
    ensures
        match json_tree(*value) {
            JsonTree::Object(members) => r matches Some(object) && object_members(*object)
                == members,
            _ => r is None,
        },
;

/// `serde_json::Value::as_array` gives the array that the value is, and
/// nothing for a value of another kind.
pub assume_specification<'a>[ serde_json::Value::as_array ](value: &'a serde_json::Value) -> (r:
    Option<&'a Vec<serde_json::Value>>)
    ensures
        match json_tree(*value) {
            JsonTree::Array(items) => r matches Some(values) && trees_of(values@, items),
            _ => r is None,
        },
;

/// `serde_json::Value::as_bool` gives the boolean that the value is, and
/// nothing for a value of another kind.
pub assume_specification[ serde_json::Value::as_bool ](value: &serde_json::Value) -> (r: Option<
    bool,
>)
    ensures
        r == (match json_tree(*value) {
            JsonTree::Bool(flag) => Some(flag),
            _ => None,
        }),
;

/// `serde_json::Value::as_str` gives the string that the value is, and
/// nothing for a value of another kind.
pub assume_specification<'a>[ serde_json::Value::as_str ](value: &'a serde_json::Value) -> (r:
    Option<&'a str>)
    ensures
        match json_tree(*value) {
            JsonTree::Text(text) => r matches Some(slice) && slice@ == text,
            _ => r is None,
        },
;

/// `serde_json::Value::as_u64` gives the number where the value is an integer
/// from 0 to 2^64 - 1, and nothing for any other value.
pub assume_specification[ serde_json::Value::as_u64 ](value: &serde_json::Value) -> (r: Option<
    u64,
>)
    ensures
        r == (match json_tree(*value) {
            JsonTree::Number(JsonNumber::Unsigned(n)) => Some(n),
            _ => None,
        }),
;

/// `serde_json::Value::clone` gives a value that holds the same tree.
pub assume_specification[ <serde_json::Value as Clone>::clone ](value: &serde_json::Value) -> (r:
    serde_json::Value)
    ensures
        json_tree(r) == json_tree(*value),
;

/// `serde_json::Value::get` with a string for the index: the member under
/// `key` where the value is an object that has one, and nothing otherwise.
#[verifier::external_body]
pub(crate) fn value_member<'a>(value: &'a serde_json::Value, key: &str) -> (r: Option<
    &'a serde_json::Value,
>)
    ensures
        match json_tree(*value) {
            JsonTree::Object(members) if members.contains_key(key@) => r matches Some(found)
                && json_tree(*found) == members[key@],
            _ => r is None,
        },
{
    value.get(key)
}

/// `serde_json::Map::get`: the value under `key`, or nothing where the object
/// has no such key.
#[verifier::external_body]
pub(crate) fn member<'a>(
    object: &'a serde_json::Map<String, serde_json::Value>,
    key: &str,
) -> (r: Option<&'a serde_json::Value>)
    ensures
        match r {
            Some(value) => object_members(*object).contains_key(key@) && object_members(
                *object,
            )[key@] == json_tree(*value),
            None => !object_members(*object).contains_key(key@),
        },
{
    object.get(key)
}

/// `serde_json::Map::keys`: the keys of the object, each once.
#[verifier::external_body]
pub(crate) fn member_names(object: &serde_json::Map<String, serde_json::Value>) -> (r: Vec<
    String,
>)
    ensures
        names_cover(r@, object_members(*object).dom()),
        names_differ(r@),
{
    object.keys().cloned().collect()
}

/// `serde_json::Map::new`: an object without members.
#[verifier::external_body]
pub(crate) fn new_object() -> (r: serde_json::Map<String, serde_json::Value>)
    ensures
        object_members(r) == no_members(),
{
    serde_json::Map::new()
}

/// `serde_json::Map::insert`: afterwards the object holds `value` under
/// `key`, in place of what it held there, and every other member as before.
#[verifier::external_body]
pub(crate) fn set_member(
    object: &mut serde_json::Map<String, serde_json::Value>,
    key: &str,
    value: serde_json::Value,
)
    ensures
        object_members(*final(object)) == object_members(*old(object)).insert(
            key@,
            json_tree(value),
        ),
{
    object.insert(key.to_owned(), value);
}

/// `serde_json::Value::from` on a boolean: the value that is this boolean.
#[verifier::external_body]
pub(crate) fn bool_value(flag: bool) -> (r: serde_json::Value)
    ensures
        json_tree(r) == JsonTree::Bool(flag),
{
    serde_json::Value::from(flag)
}

/// `serde_json::Value::from` on a string slice: the value that is this
/// string.
#[verifier::external_body]
pub(crate) fn text_value(text: &str) -> (r: serde_json::Value)
    ensures
        json_tree(r) == JsonTree::Text(text@),
{
    serde_json::Value::from(text)
}

/// `serde_json::Value::from` on an unsigned integer of 64 bits: the value
/// that is this number.
#[verifier::external_body]
pub(crate) fn unsigned_value(number: u64) -> (r: serde_json::Value)
    ensures
        json_tree(r) == JsonTree::Number(JsonNumber::Unsigned(number)),
{
    serde_json::Value::from(number)
}

/// `serde_json::Value::from` on an object: the value that is this object.
#[verifier::external_body]
pub(crate) fn object_value(object: serde_json::Map<String, serde_json::Value>) -> (r:
    serde_json::Value)
    ensures
        json_tree(r) == JsonTree::Object(object_members(object)),
{
    serde_json::Value::from(object)
}

/// `serde_json::to_string` on a value: the text that it writes, or nothing
/// where it fails.
#[verifier::external_body]
pub(crate) fn render(value: &serde_json::Value) -> (r: Option<String>)
    ensures
        match r {
            Some(text) => rendered_json(json_tree(*value)) == Some(text@),
            None => rendered_json(json_tree(*value)) is None,
        },
{
    serde_json::to_string(value).ok()
}

/// Reads a text as a JSON object. The result is nothing where the text is
/// no JSON or reads as a value of another kind.
pub fn parse_object(text: &str) -> (r: Option<serde_json::Map<String, serde_json::Value>>)
    ensures
        match r {
            Some(object) => parsed_object(text@) == Some(object_members(object)),
            None => parsed_object(text@) is None,
        },
{
    match parse(text) {
        Some(value) => into_object(value),
        None => None,
    }
}

/// Writes an object as JSON text, or nothing where that fails.
pub fn render_object(object: serde_json::Map<String, serde_json::Value>) -> (r: Option<String>)
    ensures
        match r {
            Some(text) => rendered_json(JsonTree::Object(object_members(object))) == Some(text@),
            None => rendered_json(JsonTree::Object(object_members(object))) is None,
        },
{
    let value = object_value(object);
    render(&value)
}

} // verus!

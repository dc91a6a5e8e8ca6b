//! JSON documents, held as `serde_json` values and spoken of as trees.
//!
//! A `serde_json::Value` is opaque to the proofs. [`json_tree`] names the tree that a value
//! stands for and [`json_members`] the members of an object; the functions of this module that
//! call into `serde_json` say what each call does to those trees. Every other function here is
//! proved from them.

use vstd::prelude::*;

verus! {

#[verifier::external_type_specification]
#[verifier::external_body]
pub struct ExJsonValue(serde_json::Value);

#[verifier::external_type_specification]
#[verifier::external_body]
#[verifier::reject_recursive_types(K)]
#[verifier::reject_recursive_types(V)]
pub struct ExJsonMap<K, V>(serde_json::Map<K, V>);

/// The mathematical content of a JSON value.
///
/// A number is held as `serde_json` holds it: an unsigned integer, a negative integer, or a
/// finite fraction. Fractions that compare equal share one tree, named by an integer.
pub enum JsonTreeV1 {
    Null,
    Bool(bool),
    Unsigned(u64),
    Negative(i64),
    Fraction(int),
    Text(Seq<char>),
    List(Seq<JsonTreeV1>),
    Record(Map<Seq<char>, JsonTreeV1>),
}

/// The tree that a JSON value stands for.
pub uninterp spec fn json_tree(value: serde_json::Value) -> JsonTreeV1;

/// The members of a JSON object, by name.
pub uninterp spec fn json_members(
    object: serde_json::Map<String, serde_json::Value>,
) -> Map<Seq<char>, JsonTreeV1>;

/// The tree of the JSON document that a text spells, if it spells one.
pub uninterp spec fn json_document(text: Seq<char>) -> Option<JsonTreeV1>;

/// The trees of the values of an array, in order.
pub open spec fn json_trees(values: Seq<serde_json::Value>) -> Seq<JsonTreeV1> {
    values.map_values(|value: serde_json::Value| json_tree(value))
}

/// The members of an object that has none.
pub open spec fn no_members() -> Map<Seq<char>, JsonTreeV1> {
    Map::empty()
}

/// The member of the given name, if there is one.
pub open spec fn member(
    members: Map<Seq<char>, JsonTreeV1>,
    name: Seq<char>,
) -> Option<JsonTreeV1> {
    if members.dom().contains(name) {
        Some(members[name])
    } else {
        None
    }
}

/// The members of a tree: those of a record, and none for every other tree.
pub open spec fn record_of(tree: JsonTreeV1) -> Option<Map<Seq<char>, JsonTreeV1>> {
    match tree {
        JsonTreeV1::Record(members) => Some(members),
        _ => None,
    }
}

/// The member of the given name of a tree that is a record.
pub open spec fn tree_member(tree: JsonTreeV1, name: Seq<char>) -> Option<JsonTreeV1> {
    match tree {
        JsonTreeV1::Record(members) => member(members, name),
        _ => None,
    }
}

/// The text of a tree that is a text.
pub open spec fn text_of(tree: Option<JsonTreeV1>) -> Option<Seq<char>> {
    match tree {
        Some(JsonTreeV1::Text(text)) => Some(text),
        _ => None,
    }
}

/// The integer of a tree that is an unsigned integer.
pub open spec fn unsigned_of(tree: Option<JsonTreeV1>) -> Option<u64> {
    match tree {
        Some(JsonTreeV1::Unsigned(number)) => Some(number),
        _ => None,
    }
}

/// The truth value of a tree that is a truth value.
pub open spec fn bool_of(tree: Option<JsonTreeV1>) -> Option<bool> {
    match tree {
        Some(JsonTreeV1::Bool(value)) => Some(value),
        _ => None,
    }
}

/// The elements of a tree that is a list.
pub open spec fn list_of(tree: Option<JsonTreeV1>) -> Option<Seq<JsonTreeV1>> {
    match tree {
        Some(JsonTreeV1::List(elements)) => Some(elements),
        _ => None,
    }
}

/// The tree of an optional reference to a value.
pub open spec fn optional_tree(value: Option<&serde_json::Value>) -> Option<JsonTreeV1> {
    match value {
        Some(value) => Some(json_tree(*value)),
        None => None,
    }
}

/// The characters of an optional text.
pub open spec fn optional_text(value: Option<&str>) -> Option<Seq<char>> {
    match value {
        Some(value) => Some(value@),
        None => None,
    }
}

/// `serde_json::Value::Null`: the null value.
#[verifier::external_body]
pub(crate) fn json_null() -> (value: serde_json::Value)
    ensures
        json_tree(value) == JsonTreeV1::Null,
{
    serde_json::Value::Null
}

/// `serde_json::Value::Bool`: the given truth value.
#[verifier::external_body]
pub(crate) fn json_bool(truth: bool) -> (value: serde_json::Value)
    ensures
        json_tree(value) == JsonTreeV1::Bool(truth),
{
    serde_json::Value::Bool(truth)
}

/// `serde_json::Value::from` on an unsigned integer: that integer as a number.
#[verifier::external_body]
pub(crate) fn json_unsigned(number: u64) -> (value: serde_json::Value)
    ensures
        json_tree(value) == JsonTreeV1::Unsigned(number),
{
    serde_json::Value::from(number)
}

/// `serde_json::Value::String`: the given characters as a text.
#[verifier::external_body]
pub(crate) fn json_text(text: &str) -> (value: serde_json::Value)
    ensures
        json_tree(value) == JsonTreeV1::Text(text@),
{
    serde_json::Value::String(text.to_owned())
}

/// `serde_json::Value::Array`: the given values in the given order.
#[verifier::external_body]
pub(crate) fn json_array(values: Vec<serde_json::Value>) -> (value: serde_json::Value)
    ensures
        json_tree(value) == JsonTreeV1::List(json_trees(values@)),
{
    serde_json::Value::Array(values)
}

/// `serde_json::Value::Object`: the given members as an object.
#[verifier::external_body]
pub(crate) fn json_object(
    object: serde_json::Map<String, serde_json::Value>,
) -> (value: serde_json::Value)
    ensures
        json_tree(value) == JsonTreeV1::Record(json_members(object)),
{
    serde_json::Value::Object(object)
}

/// `serde_json::Value::as_object`: the object's members, and nothing for any other value.
#[verifier::external_body]
pub(crate) fn json_as_object(
    value: &serde_json::Value,
) -> (object: Option<&serde_json::Map<String, serde_json::Value>>)
    ensures
        match object {
            Some(object) => json_tree(*value) == JsonTreeV1::Record(json_members(*object)),
            None => !(json_tree(*value) is Record),
        },
{
    value.as_object()
}

/// `serde_json::Value::as_array`: the array's elements, and nothing for any other value.
#[verifier::external_body]
pub(crate) fn json_as_array(
    value: &serde_json::Value,
) -> (elements: Option<&Vec<serde_json::Value>>)
    ensures
        match elements {
            Some(elements) => json_tree(*value) == JsonTreeV1::List(json_trees(elements@)),
            None => !(json_tree(*value) is List),
        },
{
    value.as_array()
}

/// `serde_json::Value::as_str`: the text, and nothing for any other value.
#[verifier::external_body]
pub(crate) fn json_as_str(value: &serde_json::Value) -> (text: Option<&str>)
    ensures
        optional_text(text) == text_of(Some(json_tree(*value))),
{
    value.as_str()
}

/// `serde_json::Value::as_u64`: the unsigned integer, and nothing for any other value, a
/// negative or fractional number included.
#[verifier::external_body]
pub(crate) fn json_as_u64(value: &serde_json::Value) -> (number: Option<u64>)
    ensures
        number == unsigned_of(Some(json_tree(*value))),
{
    value.as_u64()
}

/// `serde_json::Value::as_bool`: the truth value, and nothing for any other value.
#[verifier::external_body]
pub(crate) fn json_as_bool(value: &serde_json::Value) -> (truth: Option<bool>)
    ensures
        truth == bool_of(Some(json_tree(*value))),
{
    value.as_bool()
}

/// `serde_json::Value::get` with a name: the member of that name of an object, and nothing for any
/// other value.
#[verifier::external_body]
pub(crate) fn json_value_get<'a>(
    value: &'a serde_json::Value,
    name: &str,
) -> (found: Option<&'a serde_json::Value>)
    ensures
        optional_tree(found) == tree_member(json_tree(*value), name@),
{
    value.get(name)
}

/// `serde_json::Value::eq`: two values are equal when they stand for the same tree. Members of
/// objects compare without regard to their order.
#[verifier::external_body]
pub(crate) fn json_equal(left: &serde_json::Value, right: &serde_json::Value) -> (equal: bool)
    ensures
        equal == (json_tree(*left) == json_tree(*right)),
{
    left == right
}

/// `serde_json::Value::clone`: the same value once more.
pub assume_specification[ <serde_json::Value as Clone>::clone ](
    value: &serde_json::Value,
) -> (copy: serde_json::Value)
    ensures
        copy == *value,
;

/// `serde_json::Map::new`: an object without members.
#[verifier::external_body]
pub(crate) fn json_map_new() -> (object: serde_json::Map<String, serde_json::Value>)
    ensures
        json_members(object) == no_members(),
{
    serde_json::Map::new()
}

/// `serde_json::Map::clone`: an object with the same members.
pub assume_specification[ <serde_json::Map<String, serde_json::Value> as Clone>::clone ](
    object: &serde_json::Map<String, serde_json::Value>,
) -> (copy: serde_json::Map<String, serde_json::Value>)
    ensures
        json_members(copy) == json_members(*object),
;

/// `serde_json::Map::insert`: the member of that name is the given value, whether or not there
/// was one, and every other member stays. The value that was replaced is dropped.
#[verifier::external_body]
pub(crate) fn json_map_insert(
    object: &mut serde_json::Map<String, serde_json::Value>,
    name: &str,
    value: serde_json::Value,
)
    ensures
        json_members(*final(object)) == json_members(*old(object)).insert(
            name@,
            json_tree(value),
        ),
{
    object.insert(name.to_owned(), value);
}

/// `serde_json::Map::remove`: the object is left without a member of that name.
#[verifier::external_body]
pub(crate) fn json_map_remove(
    object: &mut serde_json::Map<String, serde_json::Value>,
    name: &str,
)
    ensures
        json_members(*final(object)) == json_members(*old(object)).remove(name@),
{
    object.remove(name);
}

/// `serde_json::Map::get`: the member of that name, if there is one.
#[verifier::external_body]
pub(crate) fn json_map_get<'a>(
    object: &'a serde_json::Map<String, serde_json::Value>,
    name: &str,
) -> (value: Option<&'a serde_json::Value>)
    ensures
        optional_tree(value) == member(json_members(*object), name@),
{
    object.get(name)
}

/// `serde_json::Map::len`: the number of members.
#[verifier::external_body]
pub(crate) fn json_map_len(
    object: &serde_json::Map<String, serde_json::Value>,
) -> (length: usize)
    ensures
        length == json_members(*object).dom().len(),
{
    object.len()
}

/// `serde_json::Map::keys`: the names of the members, each as its own text.
#[verifier::external_body]
pub(crate) fn json_map_keys(
    object: &serde_json::Map<String, serde_json::Value>,
) -> (names: Vec<String>)
    ensures
        forall|name: Seq<char>|
            #![trigger json_members(*object).dom().contains(name)]
            json_members(*object).dom().contains(name) <==> exists|i: int|
                0 <= i < names@.len() && #[trigger] names@[i]@ == name,
{
    object.keys().cloned().collect()
}

/// `serde_json::from_str` into a `serde_json::Value`: the document that the text spells, and
/// nothing where it spells none.
#[verifier::external_body]
pub(crate) fn json_from_str(text: &str) -> (value: Option<serde_json::Value>)
    ensures
        match value {
            Some(value) => json_document(text@) == Some(json_tree(value)),
            None => json_document(text@) is None,
        },
{
    serde_json::from_str(text).ok()
}

/// Whether the member of the given name is the given text.
pub fn member_text_is(
    object: &serde_json::Map<String, serde_json::Value>,
    name: &str,
    expected: &str,
) -> (is: bool)
    ensures
        is == (text_of(member(json_members(*object), name@)) == Some(expected@)),
{
    match json_map_get(object, name) {
        Some(value) => match json_as_str(value) {
            Some(found) => crate::text::same_text(found, expected),
            None => false,
        },
        None => false,
    }
}

/// Whether the member of the given name is the given optional text: that text where there is one,
/// and otherwise absent or no text.
pub fn member_text_matches(
    object: &serde_json::Map<String, serde_json::Value>,
    name: &str,
    expected: &Option<String>,
) -> (is: bool)
    ensures
        is == (text_of(member(json_members(*object), name@)) == crate::text::optional_characters(
            *expected,
        )),
{
    match expected {
        Some(expected) => member_text_is(object, name, expected),
        None => match json_map_get(object, name) {
            Some(value) => json_as_str(value).is_none(),
            None => true,
        },
    }
}

/// Whether the member of the given name is the given unsigned integer.
pub fn member_unsigned_is(
    object: &serde_json::Map<String, serde_json::Value>,
    name: &str,
    expected: u64,
) -> (is: bool)
    ensures
        is == (unsigned_of(member(json_members(*object), name@)) == Some(expected)),
{
    match json_map_get(object, name) {
        Some(value) => match json_as_u64(value) {
            Some(found) => found == expected,
            None => false,
        },
        None => false,
    }
}

/// Whether the member of the given name is the given truth value.
pub fn member_bool_is(
    object: &serde_json::Map<String, serde_json::Value>,
    name: &str,
    expected: bool,
) -> (is: bool)
    ensures
        is == (bool_of(member(json_members(*object), name@)) == Some(expected)),
{
    match json_map_get(object, name) {
        Some(value) => match json_as_bool(value) {
            Some(found) => found == expected,
            None => false,
        },
        None => false,
    }
}

/// Whether two optional values are both absent, or both present with the same tree.
pub fn same_optional_value(
    left: Option<&serde_json::Value>,
    right: Option<&serde_json::Value>,
) -> (same: bool)
    ensures
        same == (optional_tree(left) == optional_tree(right)),
{
    match (left, right) {
        (Some(left), Some(right)) => json_equal(left, right),
        (None, None) => true,
        (Some(_), None) => false,
        (None, Some(_)) => false,
    }
}

/// Whether two objects agree on the members of the given names: on each, both have none, or both
/// have the same.
pub fn same_member(
    left: &serde_json::Map<String, serde_json::Value>,
    left_name: &str,
    right: &serde_json::Map<String, serde_json::Value>,
    right_name: &str,
) -> (same: bool)
    ensures
        same == (member(json_members(*left), left_name@) == member(
            json_members(*right),
            right_name@,
        )),
{
    same_optional_value(json_map_get(left, left_name), json_map_get(right, right_name))
}

} // verus!

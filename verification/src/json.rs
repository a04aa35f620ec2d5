//! JSON values of the `serde_json` crate, seen as trees.
//!
//! A [`serde_json::Value`] stands for the tree that [`json_of`] names and a
//! [`serde_json::Map`] for the members that [`members_of`] names. The crate is
//! built without `serde_json`'s `preserve_order` and `arbitrary_precision`: an
//! object holds its members in a `BTreeMap`.
use crate::limits::json_counters_hold;
use crate::text::precedes;
use serde_json::Value;
use vstd::prelude::*;

verus! {

/// A JSON value as a tree.
pub enum Json {
    /// `null`.
    Null,
    /// `true` or `false`.
    Bool(bool),
    /// A number that is held as an integer.
    Integer(int),
    /// A number that is held as a binary64 float, by its bits.
    Double(u64),
    /// A string.
    Text(Seq<char>),
    /// An array.
    Array(Seq<Json>),
    /// An object.
    Object(Map<Seq<char>, Json>),
}

/// A JSON value of `serde_json`.
#[verifier::external_type_specification]
#[verifier::external_body]
pub struct ExValue(serde_json::Value);

/// A JSON object of `serde_json`.
#[verifier::external_type_specification]
#[verifier::external_body]
#[verifier::reject_recursive_types(K)]
#[verifier::reject_recursive_types(V)]
pub struct ExMap<K, V>(serde_json::Map<K, V>);

/// The reason why `serde_json` does not take a text for JSON.
#[verifier::external_type_specification]
#[verifier::external_body]
pub struct ExError(serde_json::Error);

/// What a JSON value holds.
pub uninterp spec fn json_of(value: serde_json::Value) -> Json;

/// The members that a JSON object holds.
pub uninterp spec fn members_of(object: serde_json::Map<String, serde_json::Value>) -> Map<
    Seq<char>,
    Json,
>;

/// What `serde_json::from_str` reads in a text: a value, or nothing where the
/// text is not JSON.
pub uninterp spec fn parsed_json(text: Seq<char>) -> Option<Json>;

/// The members of an empty object.
pub open spec fn no_members() -> Map<Seq<char>, Json> {
    Map::empty()
}

/// What an optional JSON value holds.
pub open spec fn opt_json(value: Option<Value>) -> Option<Json> {
    match value {
        Some(value) => Some(json_of(value)),
        None => None,
    }
}

/// What an optional JSON value behind a reference holds.
pub open spec fn opt_json_ref(value: Option<&Value>) -> Option<Json> {
    match value {
        Some(value) => Some(json_of(*value)),
        None => None,
    }
}

/// What each of a sequence of JSON values holds.
pub open spec fn jsons_of(values: Seq<Value>) -> Seq<Json> {
    values.map_values(|value: Value| json_of(value))
}

/// The member of that name, where the value is an object that has it.
pub open spec fn member_of(value: Json, name: Seq<char>) -> Option<Json> {
    match value {
        Json::Object(members) => if members.contains_key(name) {
            Some(members[name])
        } else {
            None
        },
        _ => None,
    }
}

/// The members of a value, where it is an object.
pub open spec fn members_in(value: Option<Json>) -> Option<Map<Seq<char>, Json>> {
    match value {
        Some(Json::Object(members)) => Some(members),
        _ => None,
    }
}

/// The names and values of listed members.
pub open spec fn listing_of(members: Seq<(&String, &Value)>) -> Seq<(Seq<char>, Json)> {
    members.map_values(|member: (&String, &Value)| (member.0@, json_of(*member.1)))
}

/// Whether a listing goes through the members by ascending name, each once.
pub open spec fn is_listing(listing: Seq<(Seq<char>, Json)>, members: Map<Seq<char>, Json>) -> bool {
    &&& forall|i: int, j: int|
        0 <= i < j < listing.len() ==> precedes(#[trigger] listing[i].0, #[trigger] listing[j].0)
    &&& forall|i: int|
        0 <= i < listing.len() ==> members.contains_pair(
            (#[trigger] listing[i]).0,
            listing[i].1,
        )
    &&& forall|name: Seq<char>| #[trigger]
        members.contains_key(name) ==> exists|i: int|
            0 <= i < listing.len() && (#[trigger] listing[i]).0 == name
}

/// Calls `serde_json::from_str` for a [`Value`]. Its result depends on the text
/// alone. The call panics where a number that it reads overflows one of its
/// counters.
#[verifier::external_body]
pub(crate) fn parse_json(text: &str) -> (value: Result<Value, serde_json::Error>)
    requires
        json_counters_hold(text@),
    ensures
        match value {
            Ok(value) => parsed_json(text@) == Some(json_of(value)),
            Err(_) => parsed_json(text@) is None,
        },
{
    serde_json::from_str(text)
}

/// Calls `serde_json::Value::get` with a name: the member of that name, where
/// the value is an object that has it.
#[verifier::external_body]
pub(crate) fn value_member<'a>(value: &'a Value, name: &str) -> (member: Option<&'a Value>)
    ensures
        opt_json_ref(member) == member_of(json_of(*value), name@),
{
    value.get(name)
}

/// Calls `serde_json::Value::as_object`: the members of an object, and nothing
/// for any other value.
#[verifier::external_body]
pub(crate) fn value_object(value: &Value) -> (object: Option<&serde_json::Map<String, Value>>)
    ensures
        match object {
            Some(object) => json_of(*value) == Json::Object(members_of(*object)),
            None => !(json_of(*value) is Object),
        },
{
    value.as_object()
}

/// Calls `serde_json::Value::as_str`: the text of a string, and nothing for any
/// other value.
#[verifier::external_body]
pub(crate) fn value_str(value: &Value) -> (text: Option<&str>)
    ensures
        match text {
            Some(text) => json_of(*value) == Json::Text(text@),
            None => !(json_of(*value) is Text),
        },
{
    value.as_str()
}

/// Calls `serde_json::Map::get`: the member of that name, if there is one.
#[verifier::external_body]
pub(crate) fn object_member<'a>(object: &'a serde_json::Map<String, Value>, name: &str) -> (member:
    Option<&'a Value>)
    ensures
        opt_json_ref(member) == member_of(Json::Object(members_of(*object)), name@),
{
    object.get(name)
}

/// Calls `serde_json::Map::iter`, which goes through the members in the order
/// of the `BTreeMap` that holds them: each once, by ascending name.
#[verifier::external_body]
pub(crate) fn object_members<'a>(object: &'a serde_json::Map<String, Value>) -> (members: Vec<
    (&'a String, &'a Value),
>)
    ensures
        is_listing(listing_of(members@), members_of(*object)),
{
    object.iter().collect()
}

/// Calls `serde_json::Map::new`: an object without members.
#[verifier::external_body]
pub(crate) fn new_object() -> (object: serde_json::Map<String, Value>)
    ensures
        members_of(object) == no_members(),
{
    serde_json::Map::new()
}

/// Calls `serde_json::Map::insert`: the name gets the value, in place of any
/// that it had.
#[verifier::external_body]
pub(crate) fn insert_member(object: &mut serde_json::Map<String, Value>, name: String, value: Value)
    ensures
        members_of(*final(object)) == members_of(*old(object)).insert(name@, json_of(value)),
{
    object.insert(name, value);
}

/// Calls `serde_json::Map::remove`: the object no longer has the name.
#[verifier::external_body]
pub(crate) fn remove_member(object: &mut serde_json::Map<String, Value>, name: &str)
    ensures
        members_of(*final(object)) == members_of(*old(object)).remove(name@),
{
    object.remove(name);
}

/// Calls `serde_json::Map::extend` with another object: its members join, in
/// place of any of the same name.
#[verifier::external_body]
pub(crate) fn extend_object(
    object: &mut serde_json::Map<String, Value>,
    update: serde_json::Map<String, Value>,
)
    ensures
        members_of(*final(object)) == members_of(*old(object)).union_prefer_right(
            members_of(update),
        ),
{
    object.extend(update)
}

/// Calls `serde_json::Map::clone`: an object with the same members.
#[verifier::external_body]
pub(crate) fn copy_object(object: &serde_json::Map<String, Value>) -> (copy: serde_json::Map<
    String,
    Value,
>)
    ensures
        members_of(copy) == members_of(*object),
{
    object.clone()
}

/// Calls `serde_json::Value::clone`: a value that holds the same.
#[verifier::external_body]
pub(crate) fn copy_value(value: &Value) -> (copy: Value)
    ensures
        json_of(copy) == json_of(*value),
{
    value.clone()
}

/// Calls `serde_json::Value::from` on an integer: the number, held as an
/// integer.
#[verifier::external_body]
pub(crate) fn number_value(n: u64) -> (value: Value)
    ensures
        json_of(value) == Json::Integer(n as int),
{
    Value::from(n)
}

/// Makes a `serde_json::Value::Bool`.
#[verifier::external_body]
pub(crate) fn bool_value(b: bool) -> (value: Value)
    ensures
        json_of(value) == Json::Bool(b),
{
    Value::Bool(b)
}

/// Makes a `serde_json::Value::String`.
#[verifier::external_body]
pub(crate) fn string_value(text: String) -> (value: Value)
    ensures
        json_of(value) == Json::Text(text@),
{
    Value::String(text)
}

/// Makes a `serde_json::Value::Array`.
#[verifier::external_body]
pub(crate) fn array_value(values: Vec<Value>) -> (value: Value)
    ensures
        json_of(value) == Json::Array(jsons_of(values@)),
{
    Value::Array(values)
}

/// Makes a `serde_json::Value::Object`.
#[verifier::external_body]
pub(crate) fn object_value(object: serde_json::Map<String, Value>) -> (value: Value)
    ensures
        json_of(value) == Json::Object(members_of(object)),
{
    Value::Object(object)
}

/// A string value with that text.
pub(crate) fn text_value(text: &str) -> (value: Value)
    ensures
        json_of(value) == Json::Text(text@),
{
    string_value(text.to_owned())
}

/// Gives `name` the value in the object.
pub(crate) fn put(object: &mut serde_json::Map<String, Value>, name: &str, value: Value)
    ensures
        members_of(*final(object)) == members_of(*old(object)).insert(name@, json_of(value)),
{
    insert_member(object, name.to_owned(), value)
}

/// The members of an optional value, where it is an object.
pub(crate) fn object_in(value: Option<&Value>) -> (object: Option<&serde_json::Map<String, Value>>)
    ensures
        match object {
            Some(object) => members_in(opt_json_ref(value)) == Some(members_of(*object)),
            None => members_in(opt_json_ref(value)) is None,
        },
{
    match value {
        Some(value) => value_object(value),
        None => None,
    }
}

/// The member of that name of an optional value, where it is an object that
/// has it.
pub(crate) fn member_in<'a>(value: Option<&'a Value>, name: &str) -> (member: Option<&'a Value>)
    ensures
        opt_json_ref(member) == match opt_json_ref(value) {
            Some(value) => member_of(value, name@),
            None => None,
        },
{
    match value {
        Some(value) => value_member(value, name),
        None => None,
    }
}

} // verus!

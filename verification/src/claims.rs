//! The payload of a token as a JSON object.
//!
//! The object itself is `serde_json::Map<String, Value>`; verified code sees
//! it only through [`json_members`], which names what the object holds, and
//! through the small trusted functions below, one per `serde_json` call.

use vstd::prelude::*;

verus! {

/// What a member of a JSON object is, as far as token handling reads it.
pub enum JsonValue {
    /// A JSON string.
    Text(Seq<char>),
    /// A JSON number written as an integer.
    Integer(int),
    /// Anything else: null, a boolean, a fraction, an array, an object.
    Other,
}

/// `serde_json::Value`, a JSON value. Nothing of its inside is seen here.
#[verifier::external_type_specification]
#[verifier::external_body]
pub struct ExJsonValue(serde_json::Value);

/// `serde_json::Map`, a JSON object. What it holds is seen through
/// [`json_members`] alone.
#[verifier::external_type_specification]
#[verifier::external_body]
#[verifier::reject_recursive_types(K)]
#[verifier::reject_recursive_types(V)]
pub struct ExJsonMap<K, V>(serde_json::Map<K, V>);

/// The members of a JSON object, by name.
pub uninterp spec fn json_members(object: serde_json::Map<String, serde_json::Value>) -> Map<
    Seq<char>,
    JsonValue,
>;

/// The members of an object that has none.
pub open spec fn no_members() -> Map<Seq<char>, JsonValue> {
    Map::empty()
}

/// `serde_json::Map::new`: an object without members.
#[verifier::external_body]
pub(crate) fn object_new() -> (object: serde_json::Map<String, serde_json::Value>)
    ensures
        json_members(object) == no_members(),
{
    serde_json::Map::new()
}

/// `serde_json::Map::insert` of a `Value::String`: the member `name` becomes
/// the string `text`, whether or not it was there before; the others stay.
#[verifier::external_body]
pub(crate) fn object_put_text(
    object: &mut serde_json::Map<String, serde_json::Value>,
    name: &str,
    text: &str,
)
    ensures
        json_members(*final(object)) == json_members(*old(object)).insert(
            name@,
            JsonValue::Text(text@),
        ),
{
    object.insert(name.to_string(), serde_json::Value::String(text.to_string()));
}

/// `serde_json::Map::insert` of a `Value::Number` made from an `i64`: the
/// member `name` becomes that integer; the others stay.
#[verifier::external_body]
pub(crate) fn object_put_integer(
    object: &mut serde_json::Map<String, serde_json::Value>,
    name: &str,
    number: i64,
)
    ensures
        json_members(*final(object)) == json_members(*old(object)).insert(
            name@,
            JsonValue::Integer(number as int),
        ),
{
    object.insert(name.to_string(), serde_json::Value::from(number));
}

/// `serde_json::Map::get` followed by `Value::as_str`: the member's text when
/// the object has a member `name` that is a string, nothing otherwise.
#[verifier::external_body]
pub(crate) fn object_text(
    object: &serde_json::Map<String, serde_json::Value>,
    name: &str,
) -> (text: Option<String>)
    ensures
        text is Some <==> spec_text_member(json_members(*object), name@) is Some,
        text matches Some(t) ==> spec_text_member(json_members(*object), name@) == Some(t@),
{
    object.get(name).and_then(serde_json::Value::as_str).map(str::to_string)
}

/// `serde_json::Map::get` followed by `Value::as_i64`: the member's number
/// when the object has a member `name` that is an integer within `i64`,
/// nothing otherwise.
#[verifier::external_body]
pub(crate) fn object_integer(
    object: &serde_json::Map<String, serde_json::Value>,
    name: &str,
) -> (number: Option<i64>)
    ensures
        number == spec_integer_member(json_members(*object), name@),
{
    object.get(name).and_then(serde_json::Value::as_i64)
}

/// The string that `members` holds under `name`, if it holds one.
pub open spec fn spec_text_member(members: Map<Seq<char>, JsonValue>, name: Seq<char>) -> Option<
    Seq<char>,
> {
    if members.contains_key(name) {
        match members[name] {
            JsonValue::Text(text) => Some(text),
            _ => None,
        }
    } else {
        None
    }
}

/// The integer that `members` holds under `name`, if it holds one that fits
/// in an `i64`.
pub open spec fn spec_integer_member(members: Map<Seq<char>, JsonValue>, name: Seq<char>) -> Option<
    i64,
> {
    if members.contains_key(name) {
        match members[name] {
            JsonValue::Integer(number) => if i64::MIN <= number <= i64::MAX {
                Some(number as i64)
            } else {
                None
            },
            _ => None,
        }
    } else {
        None
    }
}

} // verus!

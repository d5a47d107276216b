//! Encoding and decoding of JSON texts, done by the `json` and `serde_json`
//! crates. Nothing in this file is proved: each contract below states what
//! the outside function is taken to do.

use vstd::prelude::*;

verus! {

/// Value of one member of a flat JSON object.
pub enum Member {
    Text(Seq<char>),
    Count(nat),
    Flag(bool),
}

/// An object under construction, owned by the `json` crate.
#[verifier::external_type_specification]
#[verifier::external_body]
pub struct ExObject(json::object::Object);

/// The members that `object` holds, by key, in the order of their insertion.
pub uninterp spec fn object_members(object: json::object::Object) -> Seq<(Seq<char>, Member)>;

/// The compact JSON text that `json::JsonValue::dump` writes for an object
/// with the given members.
pub uninterp spec fn object_json(members: Seq<(Seq<char>, Member)>) -> Seq<char>;

/// The JSON text that `serde_json` writes for an object whose members are
/// all strings, inserted in the given order.
pub uninterp spec fn text_object_json(members: Seq<(Seq<char>, Seq<char>)>) -> Seq<char>;

/// The string held under `key` by the JSON object that `document` spells;
/// `None` where `document` is no JSON text, no object, lacks the key or holds
/// something other than a string there.
pub uninterp spec fn json_member_text(document: Seq<char>, key: Seq<char>) -> Option<Seq<char>>;

/// The elements, each as JSON text, of the array held under `key` by the JSON
/// object that `document` spells; `None` where `document` is no JSON text, no
/// object, lacks the key or holds something other than an array there.
pub uninterp spec fn json_member_items(
    document: Seq<char>,
    key: Seq<char>,
) -> Option<Seq<Seq<char>>>;

/// Whether one of `members` is stored under `key`.
pub open spec fn has_member(members: Seq<(Seq<char>, Member)>, key: Seq<char>) -> bool {
    exists|i: int| 0 <= i < members.len() && (#[trigger] members[i]).0 == key
}

/// `json::object::Object::new`: the new object holds no member.
#[verifier::external_body]
pub(crate) fn new_object() -> (object: json::object::Object)
    ensures
        object_members(object) == Seq::<(Seq<char>, Member)>::empty(),
{
    json::object::Object::new()
}

/// `json::object::Object::insert` with a string value: a key that the object
/// does not hold yet is appended behind the members already there.
#[verifier::external_body]
pub(crate) fn insert_text(object: &mut json::object::Object, key: &str, value: &str)
    requires
        !has_member(object_members(*old(object)), key@),
    ensures
        object_members(*final(object)) == object_members(*old(object)).push(
            (key@, Member::Text(value@)),
        ),
{
    object.insert(key, value.into());
}

/// `json::object::Object::insert` with a number: a key that the object does
/// not hold yet is appended behind the members already there.
#[verifier::external_body]
pub(crate) fn insert_count(object: &mut json::object::Object, key: &str, value: usize)
    requires
        !has_member(object_members(*old(object)), key@),
    ensures
        object_members(*final(object)) == object_members(*old(object)).push(
            (key@, Member::Count(value as nat)),
        ),
{
    object.insert(key, value.into());
}

/// `json::object::Object::insert` with a boolean: a key that the object does
/// not hold yet is appended behind the members already there.
#[verifier::external_body]
pub(crate) fn insert_flag(object: &mut json::object::Object, key: &str, value: bool)
    requires
        !has_member(object_members(*old(object)), key@),
    ensures
        object_members(*final(object)) == object_members(*old(object)).push(
            (key@, Member::Flag(value)),
        ),
{
    object.insert(key, value.into());
}

/// `json::JsonValue::dump` on the object: the text depends on the members and
/// their order alone.
#[verifier::external_body]
pub(crate) fn dump_object(object: json::object::Object) -> (text: String)
    ensures
        text@ == object_json(object_members(object)),
{
    json::JsonValue::Object(object).dump()
}

/// `serde_json::Value::to_string` on an object built with
/// `serde_json::Map::insert` from string members: the text depends on the
/// members and their order alone.
#[verifier::external_body]
pub(crate) fn text_object_to_string(members: &Vec<(String, String)>) -> (text: String)
    ensures
        text@ == text_object_json(members.deep_view()),
{
    let mut map = serde_json::Map::new();
    for (key, value) in members {
        map.insert(key.clone(), serde_json::Value::String(value.clone()));
    }
    serde_json::Value::Object(map).to_string()
}

/// `serde_json::from_str` into a `serde_json::Value`, indexed by `key` and
/// read with `Value::as_str`.
#[verifier::external_body]
pub(crate) fn member_text(document: &str, key: &str) -> (text: Option<String>)
    ensures
        text.deep_view() == json_member_text(document@, key@),
{
    let value = serde_json::from_str::<serde_json::Value>(document).ok()?;
    value[key].as_str().map(|text| text.to_string())
}

/// `serde_json::from_str` into a `serde_json::Value`, indexed by `key` and
/// read with `Value::as_array`; each element is written back with
/// `Value::to_string`.
#[verifier::external_body]
pub(crate) fn member_items(document: &str, key: &str) -> (items: Option<Vec<String>>)
    ensures
        items.deep_view() == json_member_items(document@, key@),
{
    let value = serde_json::from_str::<serde_json::Value>(document).ok()?;
    value[key].as_array().map(|items| items.iter().map(|item| item.to_string()).collect())
}

} // verus!

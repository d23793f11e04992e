//! JSON as the library reads it: parsed by `serde_json`, and looked at
//! through a mathematical model of what was parsed.
//!
//! Nothing here is proved of `serde_json` itself. What the library takes on
//! trust is said at each of the items that name it: the two type
//! declarations, `json_value`, `json_document`, and the contracts of
//! `parse_document`, `member`, `Value::as_str` and `Value::as_bool`.

use vstd::prelude::*;

verus! {

/// `serde_json::Value`, a parsed JSON value. Its inside is not visible to
/// the verifier: `json_value` stands for what it holds.
#[verifier::external_type_specification]
#[verifier::external_body]
pub struct ExJsonValue(serde_json::Value);

/// `serde_json::Error`, which tells why a text is no JSON.
#[verifier::external_type_specification]
#[verifier::external_body]
pub struct ExJsonError(serde_json::Error);

/// A JSON value. Of a number only that it is one is kept: the library reads
/// no numbers.
pub enum Json {
    Null,
    Flag(bool),
    Number,
    Text(Seq<char>),
    List(Seq<Json>),
    Object(Map<Seq<char>, Json>),
}

/// The JSON value that a `serde_json::Value` holds. A `Value::String` holds
/// a `Json::Text` of the same characters, a `Value::Bool` a `Json::Flag`,
/// and a `Value::Object` a `Json::Object` that maps each key of the object
/// to what the value under it holds. No more than that is taken on trust,
/// and only through the contracts below.
pub uninterp spec fn json_value(value: serde_json::Value) -> Json;

/// What `serde_json::from_slice` makes of a text when asked for a
/// `serde_json::Value`: what the parsed value holds, or `None` where the
/// text is refused.
pub uninterp spec fn json_document(text: Seq<u8>) -> Option<Json>;

/// Calls `serde_json::from_slice` for a `serde_json::Value`. The contract
/// claims that the outcome depends on the bytes alone, and calls it
/// `json_document`.
#[verifier::external_body]
pub(crate) fn parse_document(text: &[u8]) -> (parsed: Result<
    serde_json::Value,
    serde_json::Error,
>)
    ensures
        match parsed {
            Ok(value) => json_document(text@) == Some(json_value(value)),
            Err(_) => json_document(text@) is None,
        },
{
    serde_json::from_slice::<serde_json::Value>(text)
}

/// Calls `serde_json::Value::get` with a string as the index. The contract
/// claims what the crate's source shows: the value under `key` where `value`
/// is an object that has the key, and `None` for an object without the key
/// and for everything that is no object.
#[verifier::external_body]
pub(crate) fn member<'a>(value: &'a serde_json::Value, key: &str) -> (found: Option<
    &'a serde_json::Value,
>)
    ensures
        match found {
            Some(inner) => member_of(json_value(*value), key@) == Some(json_value(*inner)),
            None => member_of(json_value(*value), key@) is None,
        },
{
    value.get(key)
}

/// `serde_json::Value::as_str` gives the text of a JSON string, and `None`
/// for every other kind of value.
pub assume_specification<'a>[ serde_json::Value::as_str ](value: &'a serde_json::Value) -> (text:
    Option<&'a str>)
    ensures
        match text {
            Some(text) => json_value(*value) == Json::Text(text@),
            None => !(json_value(*value) is Text),
        },
;

/// `serde_json::Value::as_bool` gives the value of a JSON boolean, and
/// `None` for every other kind of value.
pub assume_specification[ serde_json::Value::as_bool ](value: &serde_json::Value) -> (flag: Option<
    bool,
>)
    ensures
        match flag {
            Some(flag) => json_value(*value) == Json::Flag(flag),
            None => !(json_value(*value) is Flag),
        },
;

/// The member of an object under a key; `None` where `json` is no object or
/// has no such member.
pub open spec fn member_of(json: Json, key: Seq<char>) -> Option<Json> {
    match json {
        Json::Object(members) => if members.contains_key(key) {
            Some(members[key])
        } else {
            None
        },
        _ => None,
    }
}

/// The text of the member under a key; `None` where there is no such member
/// or it is no JSON string.
pub open spec fn text_of(json: Json, key: Seq<char>) -> Option<Seq<char>> {
    match member_of(json, key) {
        Some(Json::Text(text)) => Some(text),
        _ => None,
    }
}

/// The boolean of the member under a key; `None` where there is no such
/// member or it is no JSON boolean.
pub open spec fn flag_of(json: Json, key: Seq<char>) -> Option<bool> {
    match member_of(json, key) {
        Some(Json::Flag(flag)) => Some(flag),
        _ => None,
    }
}

/// Reads the member under `key` as a text.
pub fn text_member(value: &serde_json::Value, key: &str) -> (text: Option<String>)
    ensures
        text.deep_view() == text_of(json_value(*value), key@),
{
    let inner = member(value, key)?;
    let text = inner.as_str()?;
    Some(text.to_owned())
}

/// Reads the member under `key` as a boolean.
pub fn flag_member(value: &serde_json::Value, key: &str) -> (flag: Option<bool>)
    ensures
        flag == flag_of(json_value(*value), key@),
{
    let inner = member(value, key)?;
    inner.as_bool()
}

} // verus!

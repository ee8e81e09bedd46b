//! JSON documents as the exchanges send them: a document parsed by
//! serde_json, held as plain values, and the lookups that read an object's
//! fields and an array's entries.

use crate::text::str_eq;
use vstd::prelude::*;

verus! {

/// A parsed JSON value. A number keeps the `i64` it holds when it is an
/// integer in that range, and its text as serde_json writes it; an object
/// keeps its entries in the order serde_json's map holds them (by key).
#[derive(Debug)]
pub enum JsonValue {
    Null,
    Bool(bool),
    Number(Option<i64>, String),
    Text(String),
    Array(Vec<JsonValue>),
    Object(Vec<(String, JsonValue)>),
}

/// A value of serde_json's document type.
#[verifier::external_type_specification]
#[verifier::external_body]
pub struct ExSerdeJsonValue(serde_json::Value);

/// What `serde_json::from_str` makes of `payload`, as a `JsonValue`, or the
/// text of its error.
pub uninterp spec fn json_document(payload: Seq<char>) -> Result<JsonValue, Seq<char>>;

/// The `Debug` rendering of the array under `key` of the document that
/// `serde_json::from_str` makes of `payload`.
pub uninterp spec fn json_array_debug(payload: Seq<char>, key: Seq<char>) -> Seq<char>;

/// `serde_json::from_str` into a `serde_json::Value`, converted variant by
/// variant; the error by its `Display`. The result is named `json_document`.
#[verifier::external_body]
pub(crate) fn parse_json_document(payload: &str) -> (res: Result<JsonValue, String>)
    ensures
        match json_document(payload@) {
            Ok(document) => res == Ok::<JsonValue, String>(document),
            Err(error) => res matches Err(e) && e@ == error,
        },
{
    match serde_json::from_str::<serde_json::Value>(payload) {
        Ok(value) => Ok(json_value_of(value)),
        Err(error) => Err(error.to_string()),
    }
}

/// A `serde_json::Value` as a `JsonValue`: one arm per variant, the fields
/// moved, a number by `as_i64` and its `Display`, an array's items and an
/// object's values converted in their order. Nothing is stated here: the
/// document's value is named by `json_document`.
#[verifier::external_body]
fn json_value_of(value: serde_json::Value) -> (json: JsonValue) {
    match value {
        serde_json::Value::Null => JsonValue::Null,
        serde_json::Value::Bool(b) => JsonValue::Bool(b),
        serde_json::Value::Number(n) => JsonValue::Number(n.as_i64(), n.to_string()),
        serde_json::Value::String(s) => JsonValue::Text(s),
        serde_json::Value::Array(items) => JsonValue::Array(items.into_iter().map(json_value_of).collect()),
        serde_json::Value::Object(entries) => JsonValue::Object(
            entries.into_iter().map(|(key, item)| (key, json_value_of(item))).collect(),
        ),
    }
}

/// `serde_json::from_str` of `payload`, then the array under `key`
/// rendered with `{:?}` (serde_json's `Debug` of its values); `None` when
/// the payload does not parse or holds no array under `key`.
#[verifier::external_body]
pub(crate) fn json_array_debug_text(payload: &str, key: &str) -> (res: Option<String>)
    ensures
        res is Some <==> (json_document(payload@) matches Ok(document) && json_field(
            document,
            key@,
        ) matches Some(JsonValue::Array(_))),
        res matches Some(text) ==> text@ == json_array_debug(payload@, key@),
{
    match serde_json::from_str::<serde_json::Value>(payload) {
        Ok(document) => match document.get(key) {
            Some(serde_json::Value::Array(items)) => Some(format!("{items:?}")),
            _ => None,
        },
        Err(_) => None,
    }
}

/// The value of the first entry under `key`.
pub open spec fn entry_value(entries: Seq<(String, JsonValue)>, key: Seq<char>) -> Option<JsonValue>
    decreases entries.len(),
{
    if entries.len() == 0 {
        None
    } else if entries[0].0@ == key {
        Some(entries[0].1)
    } else {
        entry_value(entries.drop_first(), key)
    }
}

/// The value under `key` when `value` is an object that has it.
pub open spec fn json_field(value: JsonValue, key: Seq<char>) -> Option<JsonValue> {
    match value {
        JsonValue::Object(entries) => entry_value(entries@, key),
        _ => None,
    }
}

/// The entry at `index` when `value` is an array that long.
pub open spec fn json_item(value: JsonValue, index: int) -> Option<JsonValue> {
    match value {
        JsonValue::Array(items) => if 0 <= index < items@.len() {
            Some(items@[index])
        } else {
            None
        },
        _ => None,
    }
}

/// The text of a value that is a string.
pub open spec fn json_text(value: Option<JsonValue>) -> Option<Seq<char>> {
    match value {
        Some(JsonValue::Text(s)) => Some(s@),
        _ => None,
    }
}

/// The integer of a value that is a number fitting an `i64`.
pub open spec fn json_integer(value: Option<JsonValue>) -> Option<i64> {
    match value {
        Some(JsonValue::Number(Some(n), _)) => Some(n),
        _ => None,
    }
}

/// The boolean of a value that is one.
pub open spec fn json_boolean(value: Option<JsonValue>) -> Option<bool> {
    match value {
        Some(JsonValue::Bool(b)) => Some(b),
        _ => None,
    }
}

/// The characters of an optional text.
pub open spec fn optional_text(text: Option<String>) -> Option<Seq<char>> {
    match text {
        Some(s) => Some(s@),
        None => None,
    }
}

/// The value under `key` when `value` is an object that has it.
pub fn field_of<'a>(value: &'a JsonValue, key: &str) -> (res: Option<&'a JsonValue>)
    ensures
        match json_field(*value, key@) {
            Some(v) => res matches Some(r) && *r == v,
            None => res is None,
        },
{
    match value {
        JsonValue::Object(entries) => {
            let n = entries.len();
            let mut i: usize = 0;
            assert(entries@.subrange(0, n as int) =~= entries@);
            while i < n
                invariant
                    json_field(*value, key@) == entry_value(entries@, key@),
                    n == entries@.len(),
                    i <= n,
                    entry_value(entries@, key@) == entry_value(
                        entries@.subrange(i as int, n as int),
                        key@,
                    ),
                decreases n - i,
            {
                let ghost rest = entries@.subrange(i as int, n as int);
                assert(rest[0] == entries@[i as int]);
                assert(rest.drop_first() =~= entries@.subrange(i + 1, n as int));
                if str_eq(entries[i].0.as_str(), key) {
                    return Some(&entries[i].1);
                }
                i = i + 1;
            }
            None
        },
        _ => None,
    }
}

/// The entry at `index` when `value` is an array that long.
pub fn item_of<'a>(value: &'a JsonValue, index: usize) -> (res: Option<&'a JsonValue>)
    ensures
        match json_item(*value, index as int) {
            Some(v) => res matches Some(r) && *r == v,
            None => res is None,
        },
{
    match value {
        JsonValue::Array(items) => if index < items.len() {
            Some(&items[index])
        } else {
            None
        },
        _ => None,
    }
}

/// The text of a value that is a string.
pub fn text_of(value: Option<&JsonValue>) -> (res: Option<String>)
    ensures
        optional_text(res) == json_text(
            match value {
                Some(v) => Some(*v),
                None => None,
            },
        ),
{
    match value {
        Some(JsonValue::Text(s)) => Some(s.as_str().to_owned()),
        _ => None,
    }
}

/// The integer of a value that is a number fitting an `i64`.
pub fn integer_of(value: Option<&JsonValue>) -> (res: Option<i64>)
    ensures
        res == json_integer(
            match value {
                Some(v) => Some(*v),
                None => None,
            },
        ),
{
    match value {
        Some(JsonValue::Number(Some(n), _)) => Some(*n),
        _ => None,
    }
}

/// The boolean of a value that is one.
pub fn boolean_of(value: Option<&JsonValue>) -> (res: Option<bool>)
    ensures
        res == json_boolean(
            match value {
                Some(v) => Some(*v),
                None => None,
            },
        ),
{
    match value {
        Some(JsonValue::Bool(b)) => Some(*b),
        _ => None,
    }
}

} // verus!

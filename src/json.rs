//! JSON documents as values of the library, read from text by serde_json.
use vstd::prelude::*;

verus! {

#[verifier::external_type_specification]
#[verifier::external_body]
pub struct ExSerdeValue(serde_json::Value);

/// A JSON value. Numbers keep the text that serde_json writes for them ("10.4", "83").
#[derive(Debug)]
pub enum JsonValue {
    Null,
    Bool(bool),
    Number(String),
    Str(String),
    Array(Vec<JsonValue>),
    Object(Vec<(String, JsonValue)>),
}

/// The first entry from index `i` on whose key is `key`.
pub open spec fn key_index(es: Seq<(String, JsonValue)>, key: Seq<char>, i: int) -> Option<int>
    decreases es.len() - i,
{
    if i < 0 || i >= es.len() {
        None
    } else if es[i].0@ == key {
        Some(i)
    } else {
        key_index(es, key, i + 1)
    }
}

/// The member `key` of an object; nothing for other values or a missing key.
pub open spec fn member(v: JsonValue, key: Seq<char>) -> Option<JsonValue> {
    match v {
        JsonValue::Object(es) => match key_index(es@, key, 0) {
            Some(i) => Some(es@[i].1),
            None => None,
        },
        _ => None,
    }
}

/// Following two keys.
pub open spec fn member2(v: JsonValue, a: Seq<char>, b: Seq<char>) -> Option<JsonValue> {
    match member(v, a) {
        Some(x) => member(x, b),
        None => None,
    }
}

/// The member `key` of an object.
pub fn member_of<'a>(v: &'a JsonValue, key: &str) -> (r: Option<&'a JsonValue>)
    ensures
        r matches Some(x) ==> member(*v, key@) == Some(*x),
        r is None ==> member(*v, key@) is None,
{
    match v {
        JsonValue::Object(es) => {
            let n = es.len();
            let mut i: usize = 0;
            while i < n
                invariant
                    n == es@.len(),
                    *v == JsonValue::Object(*es),
                    i <= n,
                    key_index(es@, key@, 0) == key_index(es@, key@, i as int),
                decreases n - i,
            {
                if crate::text::same_text(es[i].0.as_str(), key) {
                    assert(key_index(es@, key@, i as int) == Some(i as int));
                    return Some(&es[i].1);
                }
                i = i + 1;
            }
            None
        },
        _ => None,
    }
}

/// Following two keys.
pub fn member2_of<'a>(v: &'a JsonValue, a: &str, b: &str) -> (r: Option<&'a JsonValue>)
    ensures
        r matches Some(x) ==> member2(*v, a@, b@) == Some(*x),
        r is None ==> member2(*v, a@, b@) is None,
{
    match member_of(v, a) {
        Some(x) => member_of(x, b),
        None => None,
    }
}

/// The JSON value that serde_json reads from a text, or nothing where it refuses the text.
pub uninterp spec fn json_of(text: Seq<char>) -> Option<JsonValue>;

/// Relies on the variants of `serde_json::Value`: the same value, variant by variant, numbers
/// as the text that serde_json writes for them.
#[verifier::external_body]
fn from_serde(v: &serde_json::Value) -> JsonValue {
    match v {
        serde_json::Value::Null => JsonValue::Null,
        serde_json::Value::Bool(b) => JsonValue::Bool(*b),
        serde_json::Value::Number(n) => JsonValue::Number(n.to_string()),
        serde_json::Value::String(s) => JsonValue::Str(s.clone()),
        serde_json::Value::Array(a) => JsonValue::Array(a.iter().map(from_serde).collect()),
        serde_json::Value::Object(m) => JsonValue::Object(m.iter().map(|(k, x)| (k.clone(), from_serde(x))).collect()),
    }
}

/// Relies on `serde_json::from_str`: the value that a JSON text holds, or the error's message.
#[verifier::external_body]
fn serde_parse(text: &str) -> (r: Result<JsonValue, String>)
    ensures
        r matches Ok(j) ==> json_of(text@) == Some(j),
        r is Err ==> json_of(text@) is None,
{
    match serde_json::from_str::<serde_json::Value>(text) {
        Ok(v) => Ok(from_serde(&v)),
        Err(e) => Err(e.to_string()),
    }
}

/// Reads a JSON text.
pub fn parse_json(text: &str) -> (r: Result<JsonValue, String>)
    ensures
        r matches Ok(j) ==> json_of(text@) == Some(j),
        r is Err ==> json_of(text@) is None,
{
    serde_parse(text)
}

} // verus!

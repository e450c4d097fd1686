//! A plain mirror of a parsed JSON document, and the lookups the
//! allowlist schema needs.
use vstd::prelude::*;
use crate::text::str_eq;

verus! {

/// A JSON value. Numbers keep only what the allowlist schema can accept:
/// `Number(Some(n))` for a non-negative integer that fits in `u64`,
/// `Number(None)` for any other number (negative, fractional, too large).
#[derive(Debug, PartialEq)]
pub enum JsonValue {
    Null,
    Bool(bool),
    Number(Option<u64>),
    Str(String),
    Array(Vec<JsonValue>),
    /// Object members sorted by key; keys are distinct (of a repeated
    /// member only the last value is kept).
    Object(Vec<(String, JsonValue)>),
}

#[verifier::external_type_specification]
#[verifier::external_body]
pub struct ExJsonDocument(serde_json::Value);

/// The JSON document that `serde_json` parses from `bytes`, if any.
pub uninterp spec fn spec_decode_json(bytes: Seq<u8>) -> Option<JsonValue>;

/// Wraps `serde_json::from_slice::<serde_json::Value>`: `None` when the
/// bytes are not one well-formed JSON document. The result is named as a
/// function of the bytes; nothing about JSON syntax is assumed.
#[verifier::external_body]
pub fn decode_json(bytes: &[u8]) -> (r: Option<JsonValue>)
    ensures
        r == spec_decode_json(bytes@),
{
    match serde_json::from_slice::<serde_json::Value>(bytes) {
        Ok(v) => Some(mirror_json(v)),
        Err(_) => None,
    }
}

/// Converts `serde_json::Value` into [`JsonValue`] variant for variant,
/// moving fields (numbers through `Number::as_u64`).
#[verifier::external_body]
fn mirror_json(v: serde_json::Value) -> JsonValue {
    match v {
        serde_json::Value::Null => JsonValue::Null,
        serde_json::Value::Bool(b) => JsonValue::Bool(b),
        serde_json::Value::Number(n) => JsonValue::Number(n.as_u64()),
        serde_json::Value::String(s) => JsonValue::Str(s),
        serde_json::Value::Array(a) => JsonValue::Array(a.into_iter().map(mirror_json).collect()),
        serde_json::Value::Object(m) => JsonValue::Object(
            m.into_iter().map(|(k, x)| (k, mirror_json(x))).collect(),
        ),
    }
}

/// The value of the first member named `key`.
pub open spec fn obj_get(fields: Seq<(String, JsonValue)>, key: Seq<char>) -> Option<JsonValue>
    decreases fields.len(),
{
    if fields.len() == 0 {
        None
    } else if fields[0].0@ == key {
        Some(fields[0].1)
    } else {
        obj_get(fields.drop_first(), key)
    }
}

/// `key` is one of `keys`.
pub open spec fn key_in(key: Seq<char>, keys: Seq<&str>) -> bool {
    exists|j: int| 0 <= j < keys.len() && (#[trigger] keys[j])@ == key
}

/// Every member name is one of `keys` (serde's `deny_unknown_fields`).
pub open spec fn only_keys(fields: Seq<(String, JsonValue)>, keys: Seq<&str>) -> bool {
    forall|i: int| 0 <= i < fields.len() ==> key_in(#[trigger] fields[i].0@, keys)
}

/// Whether every member name is one of `keys`.
pub fn has_only_keys(fields: &Vec<(String, JsonValue)>, keys: &[&str]) -> (r: bool)
    ensures
        r == only_keys(fields@, keys@),
{
    let mut i: usize = 0;
    while i < fields.len()
        invariant
            i <= fields@.len(),
            forall|k: int| 0 <= k < i ==> key_in(#[trigger] fields@[k].0@, keys@),
        decreases fields@.len() - i,
    {
        let mut j: usize = 0;
        let mut found = false;
        while j < keys.len()
            invariant
                i < fields@.len(),
                j <= keys@.len(),
                found ==> key_in(fields@[i as int].0@, keys@),
                !found ==> forall|l: int| 0 <= l < j ==> (#[trigger] keys@[l])@ != fields@[i as int].0@,
            decreases keys@.len() - j,
        {
            if !found && str_eq(fields[i].0.as_str(), keys[j]) {
                found = true;
            }
            j = j + 1;
        }
        if !found {
            assert(!key_in(fields@[i as int].0@, keys@));
            return false;
        }
        i = i + 1;
    }
    true
}

/// The value of the first member named `key`.
pub fn json_field<'a>(fields: &'a Vec<(String, JsonValue)>, key: &str) -> (r: Option<&'a JsonValue>)
    ensures
        match r {
            Some(x) => obj_get(fields@, key@) == Some(*x),
            None => obj_get(fields@, key@) is None,
        },
{
    let mut i: usize = 0;
    assert(fields@.skip(0) =~= fields@);
    while i < fields.len()
        invariant
            i <= fields@.len(),
            obj_get(fields@, key@) == obj_get(fields@.skip(i as int), key@),
        decreases fields@.len() - i,
    {
        assert(fields@.skip(i as int).drop_first() =~= fields@.skip(i + 1));
        assert(fields@.skip(i as int)[0] == fields@[i as int]);
        if str_eq(fields[i].0.as_str(), key) {
            return Some(&fields[i].1);
        }
        i = i + 1;
    }
    None
}

} // verus!

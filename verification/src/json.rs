//! The JSON values that session log records are made of, and how fields
//! are looked up in them.

use vstd::prelude::*;

verus! {

/// A JSON value as the session importer reads it.
///
/// Numbers keep only what the importer asks of them: whether they are a
/// non-negative integer that fits in 64 bits, and which one. An object is its
/// list of fields in order; a key is looked up at its first occurrence.
pub enum Json {
    Null,
    Bool(bool),
    UInt(u64),
    OtherNumber,
    Str(String),
    Array(Vec<Json>),
    Object(Vec<(String, Json)>),
}

/// The value of the first field named `key`.
pub open spec fn field_lookup(fields: Seq<(String, Json)>, key: Seq<char>) -> Option<Json>
    decreases fields.len(),
{
    if fields.len() == 0 {
        None
    } else if fields[0].0@ == key {
        Some(fields[0].1)
    } else {
        field_lookup(fields.drop_first(), key)
    }
}

/// `Value::get` with a string key: a field of an object, nothing for any other value.
pub open spec fn json_get(v: Json, key: Seq<char>) -> Option<Json> {
    match v {
        Json::Object(fields) => field_lookup(fields@, key),
        _ => None,
    }
}

/// `Option::and_then(|v| v.get(key))`.
pub open spec fn opt_get(v: Option<Json>, key: Seq<char>) -> Option<Json> {
    match v {
        Some(j) => json_get(j, key),
        None => None,
    }
}

/// `Option::and_then(Value::as_str)`.
pub open spec fn opt_str(v: Option<Json>) -> Option<Seq<char>> {
    match v {
        Some(Json::Str(s)) => Some(s@),
        _ => None,
    }
}

/// `Option::and_then(Value::as_u64)`.
pub open spec fn opt_u64(v: Option<Json>) -> Option<u64> {
    match v {
        Some(Json::UInt(n)) => Some(n),
        _ => None,
    }
}

/// `a.or_else(|| b)`: the first of two lookups that found a value.
pub open spec fn or_else(a: Option<Json>, b: Option<Json>) -> Option<Json> {
    if a is Some {
        a
    } else {
        b
    }
}

/// Turns a borrowed lookup result into the value it refers to.
pub open spec fn deref_opt(r: Option<&Json>) -> Option<Json> {
    match r {
        Some(j) => Some(*j),
        None => None,
    }
}

/// Turns a borrowed string result into its characters.
pub open spec fn str_opt(r: Option<&str>) -> Option<Seq<char>> {
    match r {
        Some(s) => Some(s@),
        None => None,
    }
}

#[verifier::external_type_specification]
#[verifier::external_body]
pub struct ExValue(serde_json::Value);

/// The JSON document a text holds, as serde_json reads it (numbers kept as
/// `UInt` when they are non-negative integers that fit in 64 bits), or
/// nothing when the text is not one JSON document.
pub uninterp spec fn json_document(text: Seq<char>) -> Option<Json>;

/// Turns serde_json's value into the library's, variant for variant.
#[verifier::external_body]
fn from_value(value: serde_json::Value) -> Json {
    match value {
        serde_json::Value::Null => Json::Null,
        serde_json::Value::Bool(b) => Json::Bool(b),
        serde_json::Value::Number(n) => match n.as_u64() {
            Some(v) => Json::UInt(v),
            None => Json::OtherNumber,
        },
        serde_json::Value::String(s) => Json::Str(s),
        serde_json::Value::Array(items) => Json::Array(items.into_iter().map(from_value).collect()),
        serde_json::Value::Object(map) => Json::Object(map.into_iter().map(|(key, item)| (key, from_value(item))).collect()),
    }
}

/// Calls serde_json's `from_str::<Value>` and converts the value. Claims only
/// that the result is the function of the text named `json_document`.
#[verifier::external_body]
pub(crate) fn parse_json(text: &str) -> (r: Option<Json>)
    ensures
        r == json_document(text@),
{
    match serde_json::from_str::<serde_json::Value>(text) {
        Ok(value) => Some(from_value(value)),
        Err(_) => None,
    }
}

impl Json {
    /// The value of field `key` when `self` is an object that has one.
    pub fn get<'a>(&'a self, key: &str) -> (r: Option<&'a Json>)
        ensures
            deref_opt(r) == json_get(*self, key@),
    {
        match self {
            Json::Object(fields) => {
                let key_string = key.to_owned();
                let mut i: usize = 0;
                assert(fields@.skip(0) =~= fields@);
                assert(json_get(*self, key@) == field_lookup(fields@, key@));
                while i < fields.len()
                    invariant
                        i <= fields@.len(),
                        key_string@ == key@,
                        json_get(*self, key@) == field_lookup(fields@, key@),
                        field_lookup(fields@, key@) == field_lookup(fields@.skip(i as int), key@),
                    decreases fields.len() - i,
                {
                    assert(fields@.skip(i as int).drop_first() =~= fields@.skip(i + 1));
                    assert(fields@.skip(i as int)[0] == fields@[i as int]);
                    if fields[i].0 == key_string {
                        assert(field_lookup(fields@.skip(i as int), key@) == Some(fields@[i as int].1));
                        return Some(&fields[i].1);
                    }
                    i += 1;
                }
                None
            },
            _ => None,
        }
    }

    /// The text of a string value.
    pub fn as_str(&self) -> (r: Option<&str>)
        ensures
            str_opt(r) == opt_str(Some(*self)),
    {
        match self {
            Json::Str(s) => Some(s.as_str()),
            _ => None,
        }
    }

    /// The number, when it is a non-negative integer that fits in 64 bits.
    pub fn as_u64(&self) -> (r: Option<u64>)
        ensures
            r == opt_u64(Some(*self)),
    {
        match self {
            Json::UInt(n) => Some(*n),
            _ => None,
        }
    }

    pub fn is_null(&self) -> (r: bool)
        ensures
            r == (*self is Null),
    {
        match self {
            Json::Null => true,
            _ => false,
        }
    }

    pub fn is_object(&self) -> (r: bool)
        ensures
            r == (*self is Object),
    {
        match self {
            Json::Object(_) => true,
            _ => false,
        }
    }
}

/// `value.and_then(|v| v.get(key))` on a borrowed lookup.
pub fn get_opt<'a>(value: Option<&'a Json>, key: &str) -> (r: Option<&'a Json>)
    ensures
        deref_opt(r) == opt_get(deref_opt(value), key@),
{
    match value {
        Some(v) => v.get(key),
        None => None,
    }
}

/// `value.and_then(Value::as_str)` on a borrowed lookup.
pub fn str_of<'a>(value: Option<&'a Json>) -> (r: Option<&'a str>)
    ensures
        str_opt(r) == opt_str(deref_opt(value)),
{
    match value {
        Some(v) => v.as_str(),
        None => None,
    }
}

} // verus!

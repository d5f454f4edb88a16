//! JSON documents as plain data, and the lookups the catalogue answers are read with.
use vstd::prelude::*;
use crate::text::str_eq;

verus! {

/// A JSON number as `serde_json` keeps it: a non-negative integer, a negative
/// integer, or a floating-point number (held as the text `serde_json` writes for it).
#[derive(Debug)]
pub enum JsonNumber {
    PosInt(u64),
    NegInt(i64),
    Float(String),
}

/// A JSON value. An object keeps its members in the order `serde_json`'s map yields
/// them (by key).
#[derive(Debug)]
pub enum JsonValue {
    Null,
    Bool(bool),
    Number(JsonNumber),
    Str(String),
    Array(Vec<JsonValue>),
    Object(Vec<(String, JsonValue)>),
}

/// The value of the first member named `key`.
pub open spec fn member(entries: Seq<(String, JsonValue)>, key: Seq<char>) -> Option<JsonValue>
    decreases entries.len(),
{
    if entries.len() == 0 {
        None
    } else if entries[0].0@ == key {
        Some(entries[0].1)
    } else {
        member(entries.skip(1), key)
    }
}

/// `Value::get(key)`: the member of an object; nothing for any other value.
pub open spec fn json_get(v: JsonValue, key: Seq<char>) -> Option<JsonValue> {
    match v {
        JsonValue::Object(entries) => member(entries@, key),
        _ => None,
    }
}

/// `Option<&Value>::and_then(|v| v.get(key))`
pub open spec fn get_in(v: Option<JsonValue>, key: Seq<char>) -> Option<JsonValue> {
    match v {
        Some(x) => json_get(x, key),
        None => None,
    }
}

/// `.and_then(|v| v.as_str())`
pub open spec fn as_text(v: Option<JsonValue>) -> Option<Seq<char>> {
    match v {
        Some(JsonValue::Str(s)) => Some(s@),
        _ => None,
    }
}

/// `.and_then(|v| v.as_array())`
pub open spec fn as_list(v: Option<JsonValue>) -> Option<Seq<JsonValue>> {
    match v {
        Some(JsonValue::Array(items)) => Some(items@),
        _ => None,
    }
}

/// `Number::as_i64`
pub open spec fn number_as_i64(n: JsonNumber) -> Option<i64> {
    match n {
        JsonNumber::PosInt(u) => if u <= i64::MAX {
            Some(u as i64)
        } else {
            None
        },
        JsonNumber::NegInt(i) => Some(i),
        JsonNumber::Float(_) => None,
    }
}

/// `.and_then(|v| v.as_i64())`
pub open spec fn as_int(v: Option<JsonValue>) -> Option<i64> {
    match v {
        Some(JsonValue::Number(n)) => number_as_i64(n),
        _ => None,
    }
}

pub open spec fn opt_ref(v: Option<&JsonValue>) -> Option<JsonValue> {
    match v {
        Some(x) => Some(*x),
        None => None,
    }
}

pub open spec fn opt_text(v: Option<String>) -> Option<Seq<char>> {
    match v {
        Some(s) => Some(s@),
        None => None,
    }
}

/// `Value::get`
pub fn get<'a>(v: &'a JsonValue, key: &str) -> (r: Option<&'a JsonValue>)
    ensures
        opt_ref(r) == json_get(*v, key@),
{
    match v {
        JsonValue::Object(entries) => {
            let n = entries.len();
            let mut i: usize = 0;
            assert(entries@.skip(0) =~= entries@);
            while i < n
                invariant
                    n == entries@.len(),
                    i <= n,
                    member(entries@, key@) == member(entries@.skip(i as int), key@),
                    json_get(*v, key@) == member(entries@, key@),
                decreases n - i,
            {
                assert(entries@.skip(i as int)[0] == entries@[i as int]);
                assert(entries@.skip(i as int).skip(1) =~= entries@.skip(i + 1));
                if str_eq(entries[i].0.as_str(), key) {
                    assert(entries@.skip(i as int).len() > 0);
                    assert(entries@.skip(i as int)[0].0@ == key@);
                    assert(member(entries@.skip(i as int), key@) == Some(entries@[i as int].1));
                    return Some(&entries[i].1);
                }
                i = i + 1;
            }
            assert(entries@.skip(n as int).len() == 0);
            None
        },
        _ => None,
    }
}

/// `Option<&Value>::and_then(|v| v.get(key))`
pub fn get_opt<'a>(v: Option<&'a JsonValue>, key: &str) -> (r: Option<&'a JsonValue>)
    ensures
        opt_ref(r) == get_in(opt_ref(v), key@),
{
    match v {
        Some(x) => get(x, key),
        None => None,
    }
}

/// `.and_then(|v| v.as_str()).map(String::from)`
pub fn text_of(v: Option<&JsonValue>) -> (r: Option<String>)
    ensures
        opt_text(r) == as_text(opt_ref(v)),
{
    match v {
        Some(JsonValue::Str(s)) => Some(s.clone()),
        _ => None,
    }
}

/// `.and_then(|v| v.as_i64())`
pub fn int_of(v: Option<&JsonValue>) -> (r: Option<i64>)
    ensures
        r == as_int(opt_ref(v)),
{
    match v {
        Some(JsonValue::Number(n)) => match n {
            JsonNumber::PosInt(u) => if *u <= 9_223_372_036_854_775_807u64 {
                Some(*u as i64)
            } else {
                None
            },
            JsonNumber::NegInt(i) => Some(*i),
            JsonNumber::Float(_) => None,
        },
        _ => None,
    }
}

/// `.and_then(|v| v.as_array())`
pub fn list_of<'a>(v: Option<&'a JsonValue>) -> (r: Option<&'a Vec<JsonValue>>)
    ensures
        match r {
            Some(items) => as_list(opt_ref(v)) == Some(items@),
            None => as_list(opt_ref(v)) is None,
        },
{
    match v {
        Some(JsonValue::Array(items)) => Some(items),
        _ => None,
    }
}

} // verus!

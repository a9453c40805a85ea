//! A plain model of JSON values, as the API sends them in response bodies.
use vstd::prelude::*;

verus! {

/// A JSON number, kept in the three shapes a JSON parser distinguishes.
#[derive(Debug)]
pub enum JsonNumber {
    /// A non-negative integer.
    PosInt(u64),
    /// A negative integer.
    NegInt(i64),
    /// A number with a fraction or exponent, held as the bit pattern of its
    /// IEEE-754 double.
    Float(u64),
}

/// A JSON value. An object keeps its members in the order they were read.
#[derive(Debug)]
pub enum JsonValue {
    Null,
    Bool(bool),
    Number(JsonNumber),
    String(String),
    Array(Vec<JsonValue>),
    Object(Vec<(String, JsonValue)>),
}

/// Position of the first member named `key` at or after index `i`.
pub open spec fn key_position_from(entries: Seq<(String, JsonValue)>, key: Seq<char>, i: int) -> Option<int>
    decreases entries.len() - i,
{
    if i < 0 || i >= entries.len() {
        None
    } else if entries[i].0@ == key {
        Some(i)
    } else {
        key_position_from(entries, key, i + 1)
    }
}

/// Position of the first member named `key`.
pub open spec fn key_position(entries: Seq<(String, JsonValue)>, key: Seq<char>) -> Option<int> {
    key_position_from(entries, key, 0)
}

/// The value of the member `key` of `v`, when `v` is an object holding one.
/// Where an object repeats a name, the first member counts.
pub open spec fn member(v: JsonValue, key: Seq<char>) -> Option<JsonValue> {
    match v {
        JsonValue::Object(entries) => match key_position(entries@, key) {
            Some(i) => Some(entries@[i].1),
            None => None,
        },
        _ => None,
    }
}

/// The number as a non-negative integer, when it is one.
pub open spec fn as_unsigned(n: JsonNumber) -> Option<u64> {
    match n {
        JsonNumber::PosInt(u) => Some(u),
        JsonNumber::NegInt(i) => if i >= 0 { Some(i as u64) } else { None },
        JsonNumber::Float(_) => None,
    }
}

/// The texts of the string items of `items`, in order; other items are skipped.
pub open spec fn string_items(items: Seq<JsonValue>) -> Seq<Seq<char>>
    decreases items.len(),
{
    if items.len() == 0 {
        Seq::empty()
    } else {
        let rest = string_items(items.drop_last());
        match items.last() {
            JsonValue::String(s) => rest.push(s@),
            _ => rest,
        }
    }
}

/// The member `key` of `v` when that member is an object, else `v` itself.
pub open spec fn inner_object_or_self(v: JsonValue, key: Seq<char>) -> JsonValue {
    match member(v, key) {
        Some(inner) => if inner is Object { inner } else { v },
        None => v,
    }
}

/// The member `key` of `v` when that member is structured (an object or an
/// array), else `v` itself.
pub open spec fn structured_member_or_self(v: JsonValue, key: Seq<char>) -> JsonValue {
    match member(v, key) {
        Some(inner) => if inner is Object || inner is Array { inner } else { v },
        None => v,
    }
}

/// Finds the first member of `entries` named `key`.
pub fn position_of(entries: &Vec<(String, JsonValue)>, key: &str) -> (r: Option<usize>)
    ensures
        match r {
            Some(i) => key_position(entries@, key@) == Some(i as int) && i < entries@.len(),
            None => key_position(entries@, key@) is None,
        },
{
    let wanted = key.to_owned();
    let mut i: usize = 0;
    while i < entries.len()
        invariant
            i <= entries@.len(),
            wanted@ == key@,
            key_position(entries@, key@) == key_position_from(entries@, key@, i as int),
        decreases entries@.len() - i,
    {
        if entries[i].0 == wanted {
            return Some(i);
        }
        i = i + 1;
    }
    None
}

/// The text of the member `key` of `v`, when that member is a string.
pub fn string_member(v: &JsonValue, key: &str) -> (r: Option<String>)
    ensures
        match member(*v, key@) {
            Some(JsonValue::String(s)) => r matches Some(t) && t@ == s@,
            _ => r is None,
        },
{
    match v {
        JsonValue::Object(entries) => match position_of(entries, key) {
            Some(i) => match &entries[i].1 {
                JsonValue::String(s) => Some(s.clone()),
                _ => None,
            },
            None => None,
        },
        _ => None,
    }
}

/// The member `key` of `v` as a non-negative integer, when it is one.
pub fn unsigned_member(v: &JsonValue, key: &str) -> (r: Option<u64>)
    ensures
        r == match member(*v, key@) {
            Some(JsonValue::Number(n)) => as_unsigned(n),
            _ => None,
        },
{
    match v {
        JsonValue::Object(entries) => match position_of(entries, key) {
            Some(i) => match &entries[i].1 {
                JsonValue::Number(JsonNumber::PosInt(u)) => Some(*u),
                JsonValue::Number(JsonNumber::NegInt(n)) => if *n >= 0 {
                    Some(*n as u64)
                } else {
                    None
                },
                _ => None,
            },
            None => None,
        },
        _ => None,
    }
}

/// The texts of the string items of the member `key` of `v`, when that member
/// is an array; otherwise no texts at all.
pub fn string_items_member(v: &JsonValue, key: &str) -> (r: Vec<String>)
    ensures
        r@.map_values(|s: String| s@) == match member(*v, key@) {
            Some(JsonValue::Array(items)) => string_items(items@),
            _ => Seq::empty(),
        },
{
    let mut out: Vec<String> = Vec::new();
    match v {
        JsonValue::Object(entries) => match position_of(entries, key) {
            Some(p) => match &entries[p].1 {
                JsonValue::Array(items) => {
                    let mut i: usize = 0;
                    while i < items.len()
                        invariant
                            i <= items@.len(),
                            out@.map_values(|s: String| s@) == string_items(items@.subrange(0, i as int)),
                        decreases items@.len() - i,
                    {
                        proof {
                            assert(items@.subrange(0, i as int + 1).drop_last() == items@.subrange(0, i as int));
                        }
                        match &items[i] {
                            JsonValue::String(s) => {
                                out.push(s.clone());
                            },
                            _ => {},
                        }
                        assert(out@.map_values(|s: String| s@) == string_items(items@.subrange(0, i as int + 1)));
                        i = i + 1;
                    }
                    assert(items@.subrange(0, items@.len() as int) == items@);
                },
                _ => {},
            },
            None => {},
        },
        _ => {},
    }
    out
}

/// Takes the member `key` out of the object `v` when that member is an object,
/// and hands back its members; otherwise hands back nothing.
pub fn take_object_member(v: JsonValue, key: &str) -> (r: Option<Vec<(String, JsonValue)>>)
    ensures
        match member(v, key@) {
            Some(JsonValue::Object(inner)) => r matches Some(m) && m@ == inner@,
            _ => r is None,
        },
{
    match v {
        JsonValue::Object(mut entries) => match position_of(&entries, key) {
            Some(i) => {
                let is_object = match &entries[i].1 {
                    JsonValue::Object(_) => true,
                    _ => false,
                };
                if is_object {
                    let (_, inner) = entries.remove(i);
                    match inner {
                        JsonValue::Object(m) => Some(m),
                        _ => None,
                    }
                } else {
                    None
                }
            },
            None => None,
        },
        _ => None,
    }
}

/// Replaces `v` by its member `key` when that member is an object.
pub fn into_inner_object_or_self(v: JsonValue, key: &str) -> (r: JsonValue)
    ensures
        r == inner_object_or_self(v, key@),
{
    match v {
        JsonValue::Object(mut entries) => match position_of(&entries, key) {
            Some(i) => {
                let is_object = match &entries[i].1 {
                    JsonValue::Object(_) => true,
                    _ => false,
                };
                if is_object {
                    let (_, inner) = entries.remove(i);
                    inner
                } else {
                    JsonValue::Object(entries)
                }
            },
            None => JsonValue::Object(entries),
        },
        other => other,
    }
}

/// Replaces `v` by its member `key` when that member is an object or an array.
pub fn into_structured_member_or_self(v: JsonValue, key: &str) -> (r: JsonValue)
    ensures
        r == structured_member_or_self(v, key@),
{
    match v {
        JsonValue::Object(mut entries) => match position_of(&entries, key) {
            Some(i) => {
                let structured = match &entries[i].1 {
                    JsonValue::Object(_) => true,
                    JsonValue::Array(_) => true,
                    _ => false,
                };
                if structured {
                    let (_, inner) = entries.remove(i);
                    inner
                } else {
                    JsonValue::Object(entries)
                }
            },
            None => JsonValue::Object(entries),
        },
        other => other,
    }
}

} // verus!

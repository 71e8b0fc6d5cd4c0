//! A JSON document as the anime API answers it, with serde_json's accessors:
//! `get`, `as_array`, `as_i64` and `as_str` behave as `serde_json::Value`'s do.
use vstd::prelude::*;
use crate::text::owned;

verus! {

/// A JSON number, kept only as far as the accessors read it: a float's value
/// is never read, so a float is held without it.
pub enum JsonNumber {
    PosInt(u64),
    NegInt(i64),
    Float,
}

/// A JSON value. An object holds its entries in order; a document parsed by
/// serde_json has no key twice.
pub enum JsonValue {
    Null,
    Bool(bool),
    Number(JsonNumber),
    String(String),
    Array(Vec<JsonValue>),
    Object(Vec<(String, JsonValue)>),
}

/// The value of the first entry with the given key.
pub open spec fn lookup(entries: Seq<(String, JsonValue)>, key: Seq<char>) -> Option<JsonValue>
    decreases entries.len(),
{
    if entries.len() == 0 {
        None
    } else if entries[0].0@ == key {
        Some(entries[0].1)
    } else {
        lookup(entries.drop_first(), key)
    }
}

/// `Value::get` with a string key: the entry's value when `v` is an object
/// that has the key.
pub open spec fn get(v: JsonValue, key: Seq<char>) -> Option<JsonValue> {
    match v {
        JsonValue::Object(entries) => lookup(entries@, key),
        _ => None,
    }
}

/// `value[key]`: like `get`, with `Null` in place of a missing entry.
pub open spec fn index(v: JsonValue, key: Seq<char>) -> JsonValue {
    match get(v, key) {
        Some(x) => x,
        None => JsonValue::Null,
    }
}

/// `Value::as_array`: the items of an array.
pub open spec fn as_array(v: JsonValue) -> Option<Seq<JsonValue>> {
    match v {
        JsonValue::Array(items) => Some(items@),
        _ => None,
    }
}

/// `Value::as_i64`: a number that is an integer representable as `i64`.
pub open spec fn as_i64(v: JsonValue) -> Option<i64> {
    match v {
        JsonValue::Number(JsonNumber::PosInt(n)) => if n <= i64::MAX {
            Some(n as i64)
        } else {
            None
        },
        JsonValue::Number(JsonNumber::NegInt(n)) => Some(n),
        _ => None,
    }
}

/// `Value::as_str`: the characters of a string.
pub open spec fn as_str(v: JsonValue) -> Option<Seq<char>> {
    match v {
        JsonValue::String(s) => Some(s@),
        _ => None,
    }
}

proof fn lemma_lookup_skip(entries: Seq<(String, JsonValue)>, key: Seq<char>, i: int)
    requires
        0 <= i < entries.len(),
        entries[i].0@ != key,
    ensures
        lookup(entries.skip(i), key) == lookup(entries.skip(i + 1), key),
{
    assert(entries.skip(i).drop_first() =~= entries.skip(i + 1));
}

impl JsonValue {
    /// The value under `key` when `self` is an object that has it.
    pub fn get(&self, key: &str) -> (r: Option<&JsonValue>)
        ensures
            match get(*self, key@) {
                Some(x) => r matches Some(y) && *y == x,
                None => r is None,
            },
    {
        match self {
            JsonValue::Object(entries) => {
                let wanted = owned(key);
                let mut i: usize = 0;
                assert(entries@.skip(0) =~= entries@);
                while i < entries.len()
                    invariant
                        i <= entries.len(),
                        wanted@ == key@,
                        get(*self, key@) == lookup(entries@, key@),
                        lookup(entries@, key@) == lookup(entries@.skip(i as int), key@),
                    decreases entries.len() - i,
                {
                    if entries[i].0 == wanted {
                        assert(entries@.skip(i as int)[0] == entries@[i as int]);
                        return Some(&entries[i].1);
                    }
                    proof {
                        lemma_lookup_skip(entries@, key@, i as int);
                    }
                    i = i + 1;
                }
                None
            },
            _ => None,
        }
    }

    /// The items when `self` is an array.
    pub fn as_array(&self) -> (r: Option<&Vec<JsonValue>>)
        ensures
            match *self {
                JsonValue::Array(items) => r matches Some(a) && *a == items,
                _ => r is None,
            },
    {
        match self {
            JsonValue::Array(items) => Some(items),
            _ => None,
        }
    }

    /// The number when `self` is an integer that fits `i64`.
    pub fn as_i64(&self) -> (r: Option<i64>)
        ensures
            r == as_i64(*self),
    {
        match self {
            JsonValue::Number(JsonNumber::PosInt(n)) => {
                if *n <= i64::MAX as u64 {
                    Some(*n as i64)
                } else {
                    None
                }
            },
            JsonValue::Number(JsonNumber::NegInt(n)) => Some(*n),
            _ => None,
        }
    }

    /// The characters when `self` is a string.
    pub fn as_str(&self) -> (r: Option<&str>)
        ensures
            match as_str(*self) {
                Some(t) => r matches Some(s) && s@ == t,
                None => r is None,
            },
    {
        match self {
            JsonValue::String(s) => Some(s.as_str()),
            _ => None,
        }
    }

    /// `self[key].as_i64()`: the integer under `key`.
    pub fn i64_at(&self, key: &str) -> (r: Option<i64>)
        ensures
            r == as_i64(index(*self, key@)),
    {
        match self.get(key) {
            Some(v) => v.as_i64(),
            None => None,
        }
    }

    /// `self[key].as_str()`, copied: the string under `key`.
    pub fn string_at(&self, key: &str) -> (r: Option<String>)
        ensures
            match as_str(index(*self, key@)) {
                Some(t) => r matches Some(s) && s@ == t,
                None => r is None,
            },
    {
        match self.get(key) {
            Some(v) => match v.as_str() {
                Some(s) => Some(owned(s)),
                None => None,
            },
            None => None,
        }
    }

    /// `&self[key]`, where a missing entry reads as `Null`; `None` stands for
    /// that `Null`.
    pub fn at(&self, key: &str) -> (r: Option<&JsonValue>)
        ensures
            match r {
                Some(y) => *y == index(*self, key@),
                None => index(*self, key@) == JsonValue::Null,
            },
    {
        self.get(key)
    }
}

} // verus!

//! A plain JSON document model: the observations that tools return and the
//! arguments that tools take, as the library reads and builds them.
use vstd::prelude::*;

use crate::text::{chars_eq, chars_of, string_of};

verus! {

/// A JSON value.  Objects keep their members in order; a member name occurs once.
/// Numbers with a fraction or an exponent are carried as their decimal text.
#[derive(Debug)]
pub enum JsonValue {
    Null,
    Bool(bool),
    /// A non-negative integer.
    UInt(u64),
    /// A negative integer.
    NegInt(i64),
    /// A number with a fraction or exponent, as written.
    Decimal(String),
    Str(String),
    Array(Vec<JsonValue>),
    Object(Vec<(String, JsonValue)>),
}

/// The value stored under `key` among object members (the first such member).
pub open spec fn field_of(fields: Seq<(String, JsonValue)>, key: Seq<char>) -> Option<JsonValue>
    decreases fields.len(),
{
    if fields.len() == 0 {
        None
    } else if fields[0].0@ == key {
        Some(fields[0].1)
    } else {
        field_of(fields.drop_first(), key)
    }
}

/// `Value::get(key)`: the member of an object, `None` for any other value.
pub open spec fn json_get(v: JsonValue, key: Seq<char>) -> Option<JsonValue> {
    match v {
        JsonValue::Object(fields) => field_of(fields@, key),
        _ => None,
    }
}

/// `Value::as_u64` applied to an optional value.
pub open spec fn as_u64_spec(v: Option<JsonValue>) -> Option<u64> {
    match v {
        Some(JsonValue::UInt(n)) => Some(n),
        _ => None,
    }
}

/// `Value::as_str` applied to an optional value.
pub open spec fn as_str_spec(v: Option<JsonValue>) -> Option<Seq<char>> {
    match v {
        Some(JsonValue::Str(s)) => Some(s@),
        _ => None,
    }
}

/// `Value::as_bool` applied to an optional value.
pub open spec fn as_bool_spec(v: Option<JsonValue>) -> Option<bool> {
    match v {
        Some(JsonValue::Bool(b)) => Some(b),
        _ => None,
    }
}

/// `Value::as_array` applied to an optional value.
pub open spec fn as_array_spec(v: Option<JsonValue>) -> Option<Seq<JsonValue>> {
    match v {
        Some(JsonValue::Array(items)) => Some(items@),
        _ => None,
    }
}

/// `obs.get(key).and_then(Value::as_u64)`.
pub open spec fn get_u64(v: JsonValue, key: Seq<char>) -> Option<u64> {
    as_u64_spec(json_get(v, key))
}

/// `obs.get(key).and_then(Value::as_str)`.
pub open spec fn get_str(v: JsonValue, key: Seq<char>) -> Option<Seq<char>> {
    as_str_spec(json_get(v, key))
}

/// `obs.get(key).and_then(Value::as_bool)`.
pub open spec fn get_bool(v: JsonValue, key: Seq<char>) -> Option<bool> {
    as_bool_spec(json_get(v, key))
}

/// `obs.get(key).and_then(Value::as_array)`.
pub open spec fn get_array(v: JsonValue, key: Seq<char>) -> Option<Seq<JsonValue>> {
    as_array_spec(json_get(v, key))
}

/// `get_u64(..).unwrap_or(0)`.
pub open spec fn get_u64_or_zero(v: JsonValue, key: Seq<char>) -> u64 {
    match get_u64(v, key) {
        Some(n) => n,
        None => 0,
    }
}

pub open spec fn is_object_spec(v: JsonValue) -> bool {
    v is Object
}

impl JsonValue {
    /// `Value::get`.
    pub fn get(&self, key: &str) -> (r: Option<&JsonValue>)
        ensures
            match r {
                Some(x) => json_get(*self, key@) == Some(*x),
                None => json_get(*self, key@) is None,
            },
    {
        match self {
            JsonValue::Object(fields) => {
                let k = chars_of(key);
                let mut i: usize = 0;
                assert(fields@.skip(0) =~= fields@);
                assert(json_get(*self, key@) == field_of(fields@, key@));
                while i < fields.len()
                    invariant
                        i <= fields@.len(),
                        k@ == key@,
                        field_of(fields@, key@) == field_of(fields@.skip(i as int), key@),
                        json_get(*self, key@) == field_of(fields@, key@),
                    decreases fields@.len() - i,
                {
                    assert(fields@.skip(i as int).drop_first() =~= fields@.skip(i + 1));
                    assert(fields@.skip(i as int)[0] == fields@[i as int]);
                    let name = chars_of(fields[i].0.as_str());
                    if chars_eq(&name, &k) {
                        assert(name@ == fields@[i as int].0@);
                        assert(field_of(fields@.skip(i as int), key@) == Some(fields@[i as int].1));
                        return Some(&fields[i].1);
                    }
                    i = i + 1;
                }
                None
            },
            _ => None,
        }
    }

    /// `obs.get(key).and_then(Value::as_u64)`.
    pub fn get_u64(&self, key: &str) -> (r: Option<u64>)
        ensures
            r == get_u64(*self, key@),
    {
        match self.get(key) {
            Some(JsonValue::UInt(n)) => Some(*n),
            _ => None,
        }
    }

    /// `obs.get(key).and_then(Value::as_u64).unwrap_or(0)`.
    pub fn get_u64_or_zero(&self, key: &str) -> (r: u64)
        ensures
            r == get_u64_or_zero(*self, key@),
    {
        match self.get_u64(key) {
            Some(n) => n,
            None => 0,
        }
    }

    /// `obs.get(key).and_then(Value::as_str)`.
    pub fn get_str(&self, key: &str) -> (r: Option<&String>)
        ensures
            match r {
                Some(s) => get_str(*self, key@) == Some(s@),
                None => get_str(*self, key@) is None,
            },
    {
        match self.get(key) {
            Some(JsonValue::Str(s)) => Some(s),
            _ => None,
        }
    }

    /// `obs.get(key).and_then(Value::as_bool)`.
    pub fn get_bool(&self, key: &str) -> (r: Option<bool>)
        ensures
            r == get_bool(*self, key@),
    {
        match self.get(key) {
            Some(JsonValue::Bool(b)) => Some(*b),
            _ => None,
        }
    }

    /// `obs.get(key).and_then(Value::as_array)`.
    pub fn get_array(&self, key: &str) -> (r: Option<&Vec<JsonValue>>)
        ensures
            match r {
                Some(items) => get_array(*self, key@) == Some(items@),
                None => get_array(*self, key@) is None,
            },
    {
        match self.get(key) {
            Some(JsonValue::Array(items)) => Some(items),
            _ => None,
        }
    }

    /// `Value::as_str`.
    pub fn as_str(&self) -> (r: Option<&String>)
        ensures
            match r {
                Some(s) => *self == JsonValue::Str(*s),
                None => !(*self is Str),
            },
    {
        match self {
            JsonValue::Str(s) => Some(s),
            _ => None,
        }
    }

    /// `Value::is_object`.
    pub fn is_object(&self) -> (r: bool)
        ensures
            r == is_object_spec(*self),
    {
        match self {
            JsonValue::Object(_) => true,
            _ => false,
        }
    }
}

// ---------------------------------------------------------------------------
// Building objects
// ---------------------------------------------------------------------------

/// The member `key` holding the string `val`.
pub open spec fn is_str_member(m: (String, JsonValue), key: Seq<char>, val: Seq<char>) -> bool {
    &&& m.0@ == key
    &&& m.1 matches JsonValue::Str(s) && s@ == val
}

/// The member `key` holding the unsigned number `n`.
pub open spec fn is_uint_member(m: (String, JsonValue), key: Seq<char>, n: u64) -> bool {
    m.0@ == key && m.1 == JsonValue::UInt(n)
}

/// The member `key` holding the boolean `b`.
pub open spec fn is_bool_member(m: (String, JsonValue), key: Seq<char>, b: bool) -> bool {
    m.0@ == key && m.1 == JsonValue::Bool(b)
}

/// The member `key` holding `n`, or `null` when there is none.
pub open spec fn is_opt_uint_member(m: (String, JsonValue), key: Seq<char>, n: Option<u64>) -> bool {
    &&& m.0@ == key
    &&& match n {
        Some(v) => m.1 == JsonValue::UInt(v),
        None => m.1 == JsonValue::Null,
    }
}

/// The member `key` holding `s`, or `null` when there is none.
pub open spec fn is_opt_str_member(m: (String, JsonValue), key: Seq<char>, s: Option<Seq<char>>) -> bool {
    &&& m.0@ == key
    &&& match s {
        Some(v) => m.1 matches JsonValue::Str(t) && t@ == v,
        None => m.1 == JsonValue::Null,
    }
}

fn key_string(key: &str) -> (r: String)
    ensures
        r@ == key@,
{
    string_of(&chars_of(key))
}

/// A string member.
pub fn str_member(key: &str, val: &str) -> (r: (String, JsonValue))
    ensures
        is_str_member(r, key@, val@),
{
    (key_string(key), JsonValue::Str(key_string(val)))
}

/// An unsigned number member.
pub fn uint_member(key: &str, n: u64) -> (r: (String, JsonValue))
    ensures
        is_uint_member(r, key@, n),
{
    (key_string(key), JsonValue::UInt(n))
}

/// A boolean member.
pub fn bool_member(key: &str, b: bool) -> (r: (String, JsonValue))
    ensures
        is_bool_member(r, key@, b),
{
    (key_string(key), JsonValue::Bool(b))
}

/// An optional number member, `null` for none.
pub fn opt_uint_member(key: &str, n: Option<u64>) -> (r: (String, JsonValue))
    ensures
        is_opt_uint_member(r, key@, n),
{
    (key_string(key), match n {
        Some(v) => JsonValue::UInt(v),
        None => JsonValue::Null,
    })
}

/// An optional string member, `null` for none.
pub fn opt_str_member(key: &str, s: &Option<String>) -> (r: (String, JsonValue))
    ensures
        is_opt_str_member(r, key@, match s {
            Some(v) => Some(v@),
            None => None,
        }),
{
    (key_string(key), match s {
        Some(v) => JsonValue::Str(key_string(v.as_str())),
        None => JsonValue::Null,
    })
}

/// A member holding a given value.
pub fn value_member(key: &str, v: JsonValue) -> (r: (String, JsonValue))
    ensures
        r.0@ == key@,
        r.1 == v,
{
    (key_string(key), v)
}

} // verus!

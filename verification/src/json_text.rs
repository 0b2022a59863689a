//! JSON text: documents of the library written out by `serde_json`.
use vstd::prelude::*;

use crate::json::JsonValue;

verus! {

#[verifier::external_type_specification]
#[verifier::external_body]
pub struct ExSerdeValue(serde_json::Value);

/// The value `serde_json::Value::from` makes of an optional unsigned number.
pub uninterp spec fn serde_from_opt_u64(n: Option<u64>) -> serde_json::Value;

/// The value `serde_json::Value::Bool` makes of a flag.
pub uninterp spec fn serde_from_bool(b: bool) -> serde_json::Value;

/// The value `serde_json::Value::from` makes of a signed number.
pub uninterp spec fn serde_from_i64(n: i64) -> serde_json::Value;

/// The number `serde_json::Number::from_str` reads from a text, as a value, if it reads one.
pub uninterp spec fn serde_number_of(s: Seq<char>) -> Option<serde_json::Value>;

/// The value `serde_json::Value::String` makes of a text.
pub uninterp spec fn serde_from_string(s: Seq<char>) -> serde_json::Value;

/// The value `serde_json::Value::Array` makes of a list of values.
pub uninterp spec fn serde_from_array(items: Seq<serde_json::Value>) -> serde_json::Value;

/// The value `serde_json::Value::Object` makes of a list of named members.
pub uninterp spec fn serde_from_members(members: Seq<(Seq<char>, serde_json::Value)>) -> serde_json::Value;

/// `Value::from(Option<u64>)`: `Null` for `None`, the number otherwise.
#[verifier::external_body]
fn sj_opt_u64(n: Option<u64>) -> (r: serde_json::Value)
    ensures
        r == serde_from_opt_u64(n),
{
    serde_json::Value::from(n)
}

/// `Value::Bool`.
#[verifier::external_body]
fn sj_bool(b: bool) -> (r: serde_json::Value)
    ensures
        r == serde_from_bool(b),
{
    serde_json::Value::Bool(b)
}

/// `Value::from(i64)`: a signed number.
#[verifier::external_body]
fn sj_i64(n: i64) -> (r: serde_json::Value)
    ensures
        r == serde_from_i64(n),
{
    serde_json::Value::from(n)
}

/// `Number::from_str`: a number from its decimal text, `None` when the text is not one.
#[verifier::external_body]
fn sj_number_text(s: &str) -> (r: Option<serde_json::Value>)
    ensures
        r == serde_number_of(s@),
{
    s.parse::<serde_json::Number>().ok().map(serde_json::Value::Number)
}

/// `Value::String`.
#[verifier::external_body]
fn sj_string(s: String) -> (r: serde_json::Value)
    ensures
        r == serde_from_string(s@),
{
    serde_json::Value::String(s)
}

/// `Value::Array`.
#[verifier::external_body]
fn sj_array(items: Vec<serde_json::Value>) -> (r: serde_json::Value)
    ensures
        r == serde_from_array(items@),
{
    serde_json::Value::Array(items)
}

/// The members of a list as (name, value) pairs of views.
pub open spec fn member_views(members: Seq<(String, serde_json::Value)>) -> Seq<(Seq<char>, serde_json::Value)> {
    Seq::new(members.len(), |i: int| (members[i].0@, members[i].1))
}

/// `Value::Object` of the members, collected into a `serde_json::Map`.
#[verifier::external_body]
fn sj_object(members: Vec<(String, serde_json::Value)>) -> (r: serde_json::Value)
    ensures
        r == serde_from_members(member_views(members@)),
{
    serde_json::Value::Object(members.into_iter().collect())
}

fn copy_text(s: &String) -> (r: String)
    ensures
        r@ == s@,
{
    crate::text::string_of(&crate::text::chars_of(s.as_str()))
}

/// The `serde_json` value of a document: null, flags, integers and strings map to
/// their counterparts, a decimal to the number its text reads as (null when it reads
/// as none), arrays and objects item for item and member for member.
pub open spec fn serde_of(v: JsonValue) -> serde_json::Value
    decreases v,
{
    match v {
        JsonValue::Null => serde_from_opt_u64(None),
        JsonValue::Bool(b) => serde_from_bool(b),
        JsonValue::UInt(n) => serde_from_opt_u64(Some(n)),
        JsonValue::NegInt(n) => serde_from_i64(n),
        JsonValue::Decimal(s) => match serde_number_of(s@) {
            Some(x) => x,
            None => serde_from_opt_u64(None),
        },
        JsonValue::Str(s) => serde_from_string(s@),
        JsonValue::Array(items) => {
            proof {
                assert(decreases_to!(v => items));
                assert(decreases_to!(items => items@));
            }
            serde_from_array(serde_items(items@))
        },
        JsonValue::Object(m) => {
            proof {
                assert(decreases_to!(v => m));
                assert(decreases_to!(m => m@));
            }
            serde_from_members(serde_members(m@))
        },
    }
}

/// The `serde_json` values of a list of documents, in order.
pub open spec fn serde_items(s: Seq<JsonValue>) -> Seq<serde_json::Value>
    decreases s,
{
    if s.len() == 0 {
        Seq::empty()
    } else {
        proof {
            assert(decreases_to!(s => s[s.len() - 1]));
            assert(decreases_to!(s => s.subrange(0, s.len() - 1)));
        }
        serde_items(s.subrange(0, s.len() - 1)).push(serde_of(s[s.len() - 1]))
    }
}

/// The named `serde_json` values of a list of members, in order.
pub open spec fn serde_members(s: Seq<(String, JsonValue)>) -> Seq<(Seq<char>, serde_json::Value)>
    decreases s,
{
    if s.len() == 0 {
        Seq::empty()
    } else {
        proof {
            assert(decreases_to!(s => s[s.len() - 1]));
            assert(decreases_to!(s[s.len() - 1] => s[s.len() - 1].1));
            assert(decreases_to!(s => s.subrange(0, s.len() - 1)));
        }
        serde_members(s.subrange(0, s.len() - 1)).push((s[s.len() - 1].0@, serde_of(s[s.len() - 1].1)))
    }
}

/// Item `k` of the converted list is the conversion of item `k`.
proof fn lemma_serde_items_index(s: Seq<JsonValue>)
    ensures
        serde_items(s).len() == s.len(),
        forall|k: int| 0 <= k < s.len() ==> #[trigger] serde_items(s)[k] == serde_of(s[k]),
    decreases s.len(),
{
    if s.len() > 0 {
        let t = s.subrange(0, s.len() - 1);
        lemma_serde_items_index(t);
        assert forall|k: int| 0 <= k < s.len() implies #[trigger] serde_items(s)[k] == serde_of(s[k]) by {
            if k < s.len() - 1 {
                assert(t[k] == s[k]);
            }
        }
    }
}

/// Member `k` of the converted list is member `k`, its value converted.
proof fn lemma_serde_members_index(s: Seq<(String, JsonValue)>)
    ensures
        serde_members(s).len() == s.len(),
        forall|k: int| 0 <= k < s.len() ==> #[trigger] serde_members(s)[k] == (s[k].0@, serde_of(s[k].1)),
    decreases s.len(),
{
    if s.len() > 0 {
        let t = s.subrange(0, s.len() - 1);
        lemma_serde_members_index(t);
        assert forall|k: int| 0 <= k < s.len() implies #[trigger] serde_members(s)[k] == (s[k].0@, serde_of(s[k].1)) by {
            if k < s.len() - 1 {
                assert(t[k] == s[k]);
            }
        }
    }
}

/// The `serde_json` value of a document, member for member.
fn to_serde(v: &JsonValue) -> (r: serde_json::Value)
    ensures
        r == serde_of(*v),
    decreases v,
{
    match v {
        JsonValue::Null => sj_opt_u64(None),
        JsonValue::Bool(b) => sj_bool(*b),
        JsonValue::UInt(n) => sj_opt_u64(Some(*n)),
        JsonValue::NegInt(n) => sj_i64(*n),
        JsonValue::Decimal(s) => match sj_number_text(s.as_str()) {
            Some(x) => x,
            None => sj_opt_u64(None),
        },
        JsonValue::Str(s) => sj_string(copy_text(s)),
        JsonValue::Array(items) => {
            let mut out: Vec<serde_json::Value> = Vec::new();
            let mut i: usize = 0;
            while i < items.len()
                invariant
                    i <= items@.len(),
                    *v == JsonValue::Array(*items),
                    out@.len() == i,
                    forall|k: int| 0 <= k < i ==> #[trigger] out@[k] == serde_of(items@[k]),
                decreases items@.len() - i,
            {
                assert(decreases_to!(*v => v->Array_0));
                assert(decreases_to!(*items => items@));
                assert(decreases_to!(items@ => items@[i as int]));
                assert(decreases_to!(*v => items@[i as int]));
                out.push(to_serde(&items[i]));
                i = i + 1;
            }
            assert(out@ =~= serde_items(items@)) by {
                lemma_serde_items_index(items@);
            }
            sj_array(out)
        },
        JsonValue::Object(members) => {
            let mut out: Vec<(String, serde_json::Value)> = Vec::new();
            let mut i: usize = 0;
            while i < members.len()
                invariant
                    i <= members@.len(),
                    *v == JsonValue::Object(*members),
                    out@.len() == i,
                    forall|k: int| 0 <= k < i ==> #[trigger] out@[k].0@ == members@[k].0@ && out@[k].1
                        == serde_of(members@[k].1),
                decreases members@.len() - i,
            {
                assert(decreases_to!(*v => v->Object_0));
                assert(decreases_to!(*members => members@));
                assert(decreases_to!(members@ => members@[i as int]));
                assert(decreases_to!(members@[i as int] => members@[i as int].1));
                assert(decreases_to!(*v => members@[i as int].1));
                let value = to_serde(&members[i].1);
                out.push((copy_text(&members[i].0), value));
                i = i + 1;
            }
            assert(member_views(out@) =~= serde_members(members@)) by {
                lemma_serde_members_index(members@);
            }
            sj_object(out)
        },
    }
}

/// The text `serde_json::to_string` writes for a value.
pub uninterp spec fn serde_compact_text(v: serde_json::Value) -> Seq<char>;

/// The text `serde_json::to_string_pretty` writes for a value.
pub uninterp spec fn serde_pretty_text(v: serde_json::Value) -> Seq<char>;

/// `serde_json::to_string` of a value: its compact JSON text, object members ordered
/// by name as `serde_json::Map` keeps them.  Writing a `Value` into a `String` does not
/// fail; were it to, the text would be empty.
#[verifier::external_body]
fn sj_to_string(v: &serde_json::Value) -> (r: String)
    ensures
        r@ == serde_compact_text(*v),
{
    serde_json::to_string(v).unwrap_or_default()
}

/// `serde_json::to_string_pretty` of a value: its JSON text indented by two spaces.
#[verifier::external_body]
fn sj_to_string_pretty(v: &serde_json::Value) -> (r: String)
    ensures
        r@ == serde_pretty_text(*v),
{
    serde_json::to_string_pretty(v).unwrap_or_default()
}

/// The compact JSON text of a document: its `serde_json` value, written compactly.
pub open spec fn json_compact_text(v: JsonValue) -> Seq<char> {
    serde_compact_text(serde_of(v))
}

/// The indented JSON text of a document: its `serde_json` value, written indented.
pub open spec fn json_pretty_text(v: JsonValue) -> Seq<char> {
    serde_pretty_text(serde_of(v))
}

/// The compact JSON text of a document (members of an object in name order).
pub fn compact_json(v: &JsonValue) -> (r: String)
    ensures
        r@ == json_compact_text(*v),
{
    let sv = to_serde(v);
    sj_to_string(&sv)
}

/// The JSON text of a document, indented by two spaces.
pub fn pretty_json(v: &JsonValue) -> (r: String)
    ensures
        r@ == json_pretty_text(*v),
{
    let sv = to_serde(v);
    sj_to_string_pretty(&sv)
}

} // verus!

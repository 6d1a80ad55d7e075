//! A library-owned JSON tree.
//!
//! The feed and the visitor endpoint answer with JSON text. Parsing that
//! text is `serde_json`'s work and happens behind one trusted wrapper; the
//! parsed document is carried into [`JsonValue`], a tree of plain values,
//! and every lookup and structural check on it is verified.

use vstd::prelude::*;

use crate::text::str_eq;

verus! {

/// A JSON document as plain values. Numeric payloads are not kept: the
/// crawl logic never reads a number, only what shape a field has.
pub enum JsonValue {
    Null,
    Bool(bool),
    Number,
    Str(String),
    Array(Vec<JsonValue>),
    Object(Vec<(String, JsonValue)>),
}

/// Declares `serde_json::Value` so that the trusted bodies below may
/// take and pass it; the library never looks inside one.
#[verifier::external_type_specification]
#[verifier::external_body]
pub struct ExSerdeValue(serde_json::Value);

/// The tree that `serde_json` parses the given text to, carried over into
/// [`JsonValue`]; nothing when the text is not valid JSON. Parsing depends
/// on the text alone.
pub uninterp spec fn spec_json_of(s: Seq<char>) -> Option<JsonValue>;

/// The recursive arm of [`parse_json`]'s trusted body: moves a parsed
/// `serde_json` document into the library's tree, arm by arm. Object
/// bindings keep the order in which `serde_json`'s map iterates them.
#[verifier::external_body]
fn carry_over(v: serde_json::Value) -> JsonValue {
    match v {
        serde_json::Value::Null => JsonValue::Null,
        serde_json::Value::Bool(b) => JsonValue::Bool(b),
        serde_json::Value::Number(_) => JsonValue::Number,
        serde_json::Value::String(s) => JsonValue::Str(s),
        serde_json::Value::Array(a) => JsonValue::Array(
            a.into_iter().map(carry_over).collect(),
        ),
        serde_json::Value::Object(m) => JsonValue::Object(
            m.into_iter().map(|p| (p.0, carry_over(p.1))).collect(),
        ),
    }
}

/// Relies on `serde_json::from_str::<serde_json::Value>`: the parse is a
/// function of the text alone, so its outcome carries the name
/// [`spec_json_of`]; a parse error yields `None`.
#[verifier::external_body]
pub fn parse_json(s: &str) -> (r: Option<JsonValue>)
    ensures
        r == spec_json_of(s@),
{
    match serde_json::from_str::<serde_json::Value>(s) {
        Ok(v) => Some(carry_over(v)),
        Err(_) => None,
    }
}

/// The first binding of `key` among the bindings of an object.
pub open spec fn spec_obj_get(ps: Seq<(String, JsonValue)>, key: Seq<char>) -> Option<JsonValue>
    decreases ps.len(),
{
    if ps.len() == 0 {
        None
    } else if ps[0].0@ == key {
        Some(ps[0].1)
    } else {
        spec_obj_get(ps.drop_first(), key)
    }
}

/// Field lookup as the original JSON indexing behaves: on an object the
/// first binding of the key, on any other shape nothing.
pub open spec fn spec_get(v: JsonValue, key: Seq<char>) -> Option<JsonValue> {
    match v {
        JsonValue::Object(ps) => spec_obj_get(ps@, key),
        _ => None,
    }
}

/// Looks a key up among an object's bindings: the first binding wins.
pub fn obj_get<'a>(ps: &'a Vec<(String, JsonValue)>, key: &str) -> (r: Option<&'a JsonValue>)
    ensures
        match r {
            Some(v) => spec_obj_get(ps@, key@) == Some(*v),
            None => spec_obj_get(ps@, key@) is None,
        },
{
    let mut i: usize = 0;
    proof {
        assert(ps@.skip(0) =~= ps@);
    }
    while i < ps.len()
        invariant
            i <= ps@.len(),
            spec_obj_get(ps@, key@) == spec_obj_get(ps@.skip(i as int), key@),
            forall|j: int| 0 <= j < i ==> ps@[j].0@ != key@,
        decreases ps@.len() - i,
    {
        proof {
            assert(ps@.skip(i as int)[0] == ps@[i as int]);
            assert(ps@.skip(i as int).drop_first() =~= ps@.skip(i + 1));
        }
        if str_eq(ps[i].0.as_str(), key) {
            return Some(&ps[i].1);
        }
        i = i + 1;
    }
    proof {
        assert(ps@.skip(i as int).len() == 0);
    }
    None
}

/// Looks a key up in a JSON value, as indexing does in the original
/// representation: only an object can yield a field.
pub fn json_get<'a>(v: &'a JsonValue, key: &str) -> (r: Option<&'a JsonValue>)
    ensures
        match r {
            Some(f) => spec_get(*v, key@) == Some(*f),
            None => spec_get(*v, key@) is None,
        },
{
    match v {
        JsonValue::Object(ps) => obj_get(ps, key),
        _ => None,
    }
}

} // verus!

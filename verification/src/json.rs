//! A mathematical model of JSON trees, and trusted access to the tree values
//! produced by the `serde_json` parser.
//!
//! Inbound frames are parsed by `serde_json` into `serde_json::Value`; the
//! verified decoder walks such a value through the narrow trusted interface
//! below. The ghost function [`jv`] gives each parsed value its mathematical
//! content as a [`Jv`] tree, and every trusted accessor is specified against
//! that content.

use vstd::prelude::*;

verus! {

/// The mathematical content of a JSON tree.
///
/// Numbers that are unsigned integers fitting 64 bits are modelled exactly;
/// every other number (negative, fractional) is collapsed into `OtherNum`,
/// which the protocol never uses.
#[verifier::ext_equal]
pub enum Jv {
    Null,
    Bool(bool),
    UInt(u64),
    OtherNum,
    Str(Seq<char>),
    Arr(Seq<Jv>),
    Obj(Seq<(Seq<char>, Jv)>),
}

/// Looks a key up among the fields of an object; first match wins.
/// Objects produced by the parser have unique keys.
pub open spec fn obj_lookup(fields: Seq<(Seq<char>, Jv)>, key: Seq<char>) -> Option<Jv>
    decreases fields.len(),
{
    if fields.len() == 0 {
        None
    } else if fields[0].0 == key {
        Some(fields[0].1)
    } else {
        obj_lookup(fields.skip(1), key)
    }
}

/// The field named `key` of `j`, when `j` is an object holding it.
pub open spec fn jv_get(j: Jv, key: Seq<char>) -> Option<Jv> {
    match j {
        Jv::Obj(fields) => obj_lookup(fields, key),
        _ => None,
    }
}

pub open spec fn jv_as_u64(j: Jv) -> Option<u64> {
    match j {
        Jv::UInt(n) => Some(n),
        _ => None,
    }
}

pub open spec fn jv_as_bool(j: Jv) -> Option<bool> {
    match j {
        Jv::Bool(b) => Some(b),
        _ => None,
    }
}

pub open spec fn jv_as_str(j: Jv) -> Option<Seq<char>> {
    match j {
        Jv::Str(s) => Some(s),
        _ => None,
    }
}

#[verifier::external_type_specification]
#[verifier::external_body]
pub struct ExJsonValue(serde_json::Value);

/// The mathematical content of a parsed `serde_json::Value`.
pub uninterp spec fn jv(v: serde_json::Value) -> Jv;

/// The JSON tree denoted by a text, or none where the text is not valid JSON.
pub uninterp spec fn parsed_json(s: Seq<char>) -> Option<Jv>;

/// Relies on serde_json::from_str: parses a JSON text into a tree value, and
/// fails exactly on texts that are not valid JSON.
#[verifier::external_body]
pub fn parse_json(s: &str) -> (r: Option<serde_json::Value>)
    ensures
        match r {
            Some(v) => parsed_json(s@) == Some(jv(v)),
            None => parsed_json(s@).is_none(),
        },
{
    serde_json::from_str(s).ok()
}

/// Relies on serde_json::Value::get: looks a key up in a JSON object,
/// returning none when the value is not an object or lacks the key.
#[verifier::external_body]
pub fn get_field<'a>(v: &'a serde_json::Value, key: &str) -> (r: Option<&'a serde_json::Value>)
    ensures
        match r {
            Some(f) => jv_get(jv(*v), key@) == Some(jv(*f)),
            None => jv_get(jv(*v), key@).is_none(),
        },
{
    v.get(key)
}

/// Relies on serde_json::Value::as_u64: yields the value of a number that is
/// an unsigned integer fitting 64 bits, and none otherwise.
#[verifier::external_body]
pub fn value_as_u64(v: &serde_json::Value) -> (r: Option<u64>)
    ensures
        r == jv_as_u64(jv(*v)),
{
    v.as_u64()
}

/// Relies on serde_json::Value::as_bool: yields the value of a boolean, and
/// none otherwise.
#[verifier::external_body]
pub fn value_as_bool(v: &serde_json::Value) -> (r: Option<bool>)
    ensures
        r == jv_as_bool(jv(*v)),
{
    v.as_bool()
}

/// Relies on serde_json::Value::as_str: yields the content of a string value,
/// and none otherwise.
#[verifier::external_body]
pub fn value_as_str<'a>(v: &'a serde_json::Value) -> (r: Option<&'a str>)
    ensures
        match r {
            Some(s) => jv(*v) == Jv::Str(s@),
            None => !(jv(*v) is Str),
        },
{
    v.as_str()
}

/// Relies on serde_json::Value::as_array: yields the elements of an array
/// value, and none otherwise.
#[verifier::external_body]
pub fn value_as_array<'a>(v: &'a serde_json::Value) -> (r: Option<&'a Vec<serde_json::Value>>)
    ensures
        match r {
            Some(a) => jv(*v) == Jv::Arr(a@.map_values(|x: serde_json::Value| jv(x))),
            None => !(jv(*v) is Arr),
        },
{
    v.as_array()
}

/// Relies on serde_json::Value::is_null: true exactly of the null value.
#[verifier::external_body]
pub fn value_is_null(v: &serde_json::Value) -> (r: bool)
    ensures
        r == (jv(*v) is Null),
{
    v.is_null()
}

} // verus!

//! Typed access to the fields of a parsed JSON object, with exact
//! specifications over the tree model.

use vstd::prelude::*;

use crate::json::{
    get_field, jv, jv_as_bool, jv_as_str, jv_as_u64, jv_get, value_as_bool, value_as_str,
    value_as_u64, Jv,
};
use crate::text::{all_digits, digits_val, parse_u64_str};

verus! {

/// The state of an optional field: absent (or null), present with a value, or
/// present with a value of the wrong shape.
pub enum OptField<T> {
    Absent,
    Val(T),
    Bad,
}

/// An id value: an unsigned integer, or its decimal rendering as a string.
pub open spec fn spec_id(j: Jv) -> Option<u64> {
    match j {
        Jv::UInt(n) => Some(n),
        Jv::Str(s) => if s.len() > 0 && all_digits(s) && digits_val(s) <= u64::MAX {
            Some(digits_val(s) as u64)
        } else {
            None
        },
        _ => None,
    }
}

pub open spec fn spec_field_id(j: Jv, k: Seq<char>) -> Option<u64> {
    match jv_get(j, k) {
        Some(f) => spec_id(f),
        None => None,
    }
}

pub open spec fn spec_field_u64(j: Jv, k: Seq<char>) -> Option<u64> {
    match jv_get(j, k) {
        Some(f) => jv_as_u64(f),
        None => None,
    }
}

pub open spec fn spec_field_bool(j: Jv, k: Seq<char>) -> Option<bool> {
    match jv_get(j, k) {
        Some(f) => jv_as_bool(f),
        None => None,
    }
}

pub open spec fn spec_field_str(j: Jv, k: Seq<char>) -> Option<Seq<char>> {
    match jv_get(j, k) {
        Some(f) => jv_as_str(f),
        None => None,
    }
}

pub open spec fn spec_opt_field_id(j: Jv, k: Seq<char>) -> OptField<u64> {
    match jv_get(j, k) {
        None => OptField::Absent,
        Some(f) => if f is Null {
            OptField::Absent
        } else {
            match spec_id(f) {
                Some(n) => OptField::Val(n),
                None => OptField::Bad,
            }
        },
    }
}

pub open spec fn spec_opt_field_str(j: Jv, k: Seq<char>) -> OptField<Seq<char>> {
    match jv_get(j, k) {
        None => OptField::Absent,
        Some(f) => if f is Null {
            OptField::Absent
        } else {
            match jv_as_str(f) {
                Some(s) => OptField::Val(s),
                None => OptField::Bad,
            }
        },
    }
}

pub open spec fn spec_opt_field_bool(j: Jv, k: Seq<char>) -> OptField<bool> {
    match jv_get(j, k) {
        None => OptField::Absent,
        Some(f) => if f is Null {
            OptField::Absent
        } else {
            match jv_as_bool(f) {
                Some(b) => OptField::Val(b),
                None => OptField::Bad,
            }
        },
    }
}

pub open spec fn spec_opt_field_u64(j: Jv, k: Seq<char>) -> OptField<u64> {
    match jv_get(j, k) {
        None => OptField::Absent,
        Some(f) => if f is Null {
            OptField::Absent
        } else {
            match jv_as_u64(f) {
                Some(n) => OptField::Val(n),
                None => OptField::Bad,
            }
        },
    }
}

/// Reads a required id field, given as a number or a decimal string.
pub fn field_id(v: &serde_json::Value, key: &str) -> (r: Option<u64>)
    ensures
        r == spec_field_id(jv(*v), key@),
{
    let f = match get_field(v, key) {
        Some(f) => f,
        None => {
            return None;
        },
    };
    id_value(f)
}

/// Reads an id value: a number, or a decimal string.
pub fn id_value(f: &serde_json::Value) -> (r: Option<u64>)
    ensures
        r == spec_id(jv(*f)),
{
    match value_as_u64(f) {
        Some(n) => Some(n),
        None => match value_as_str(f) {
            Some(s) => parse_u64_str(s),
            None => None,
        },
    }
}

/// Reads a required unsigned integer field.
pub fn field_u64(v: &serde_json::Value, key: &str) -> (r: Option<u64>)
    ensures
        r == spec_field_u64(jv(*v), key@),
{
    match get_field(v, key) {
        Some(f) => value_as_u64(f),
        None => None,
    }
}

/// Reads a required boolean field.
pub fn field_bool(v: &serde_json::Value, key: &str) -> (r: Option<bool>)
    ensures
        r == spec_field_bool(jv(*v), key@),
{
    match get_field(v, key) {
        Some(f) => value_as_bool(f),
        None => None,
    }
}

/// Reads a required string field.
pub fn field_str(v: &serde_json::Value, key: &str) -> (r: Option<String>)
    ensures
        match r {
            Some(s) => spec_field_str(jv(*v), key@) == Some(s@),
            None => spec_field_str(jv(*v), key@).is_none(),
        },
{
    match get_field(v, key) {
        Some(f) => match value_as_str(f) {
            Some(s) => Some(s.to_owned()),
            None => None,
        },
        None => None,
    }
}

/// Reads an optional id field; absent and null are both "no value".
pub fn opt_field_id(v: &serde_json::Value, key: &str) -> (r: Result<Option<u64>, ()>)
    ensures
        match r {
            Ok(Some(n)) => spec_opt_field_id(jv(*v), key@) == OptField::Val(n),
            Ok(None) => spec_opt_field_id(jv(*v), key@) is Absent,
            Err(_) => spec_opt_field_id(jv(*v), key@) is Bad,
        },
{
    let f = match get_field(v, key) {
        Some(f) => f,
        None => {
            return Ok(None);
        },
    };
    if crate::json::value_is_null(f) {
        return Ok(None);
    }
    match id_value(f) {
        Some(n) => Ok(Some(n)),
        None => Err(()),
    }
}

/// Reads an optional string field; absent and null are both "no value".
pub fn opt_field_str(v: &serde_json::Value, key: &str) -> (r: Result<Option<String>, ()>)
    ensures
        match r {
            Ok(Some(s)) => spec_opt_field_str(jv(*v), key@) == OptField::Val(s@),
            Ok(None) => spec_opt_field_str(jv(*v), key@) is Absent,
            Err(_) => spec_opt_field_str(jv(*v), key@) is Bad,
        },
{
    let f = match get_field(v, key) {
        Some(f) => f,
        None => {
            return Ok(None);
        },
    };
    if crate::json::value_is_null(f) {
        return Ok(None);
    }
    match value_as_str(f) {
        Some(s) => Ok(Some(s.to_owned())),
        None => Err(()),
    }
}

/// Reads an optional boolean field; absent and null are both "no value".
pub fn opt_field_bool(v: &serde_json::Value, key: &str) -> (r: Result<Option<bool>, ()>)
    ensures
        match r {
            Ok(Some(b)) => spec_opt_field_bool(jv(*v), key@) == OptField::Val(b),
            Ok(None) => spec_opt_field_bool(jv(*v), key@) is Absent,
            Err(_) => spec_opt_field_bool(jv(*v), key@) is Bad,
        },
{
    let f = match get_field(v, key) {
        Some(f) => f,
        None => {
            return Ok(None);
        },
    };
    if crate::json::value_is_null(f) {
        return Ok(None);
    }
    match value_as_bool(f) {
        Some(b) => Ok(Some(b)),
        None => Err(()),
    }
}

/// Reads an optional unsigned integer field; absent and null are both
/// "no value".
pub fn opt_field_u64(v: &serde_json::Value, key: &str) -> (r: Result<Option<u64>, ()>)
    ensures
        match r {
            Ok(Some(n)) => spec_opt_field_u64(jv(*v), key@) == OptField::Val(n),
            Ok(None) => spec_opt_field_u64(jv(*v), key@) is Absent,
            Err(_) => spec_opt_field_u64(jv(*v), key@) is Bad,
        },
{
    let f = match get_field(v, key) {
        Some(f) => f,
        None => {
            return Ok(None);
        },
    };
    if crate::json::value_is_null(f) {
        return Ok(None);
    }
    match value_as_u64(f) {
        Some(n) => Ok(Some(n)),
        None => Err(()),
    }
}

} // verus!

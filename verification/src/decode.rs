//! Reading typed fields out of a parsed JSON value. Each helper carries an
//! exact specification of when a field is accepted and what it yields, so
//! the per-kind payload decoders compose without slack.

use vstd::prelude::*;
use crate::json::{get_field, json_field, Json};

verus! {

/// A required string field: present and a string, or nothing.
pub open spec fn spec_str_field(val: Json, key: Seq<char>) -> Option<String> {
    match json_field(val, key) {
        Some(Json::Str(s)) => Some(s),
        _ => None,
    }
}

pub fn str_field(val: &Json, key: &str) -> (r: Option<String>)
    ensures
        r == spec_str_field(*val, key@),
{
    match get_field(val, key) {
        Some(Json::Str(s)) => Some(s.clone()),
        _ => None,
    }
}

/// An optional string field: absent or null is `Some(None)`, a string is
/// `Some(Some(..))`, any other value is refused.
pub open spec fn spec_opt_str_field(val: Json, key: Seq<char>) -> Option<Option<String>> {
    match json_field(val, key) {
        None => Some(None),
        Some(Json::Null) => Some(None),
        Some(Json::Str(s)) => Some(Some(s)),
        Some(_) => None,
    }
}

pub fn opt_str_field(val: &Json, key: &str) -> (r: Option<Option<String>>)
    ensures
        r == spec_opt_str_field(*val, key@),
{
    match get_field(val, key) {
        None => Some(None),
        Some(Json::Null) => Some(None),
        Some(Json::Str(s)) => Some(Some(s.clone())),
        Some(_) => None,
    }
}

/// A required boolean field.
pub open spec fn spec_bool_field(val: Json, key: Seq<char>) -> Option<bool> {
    match json_field(val, key) {
        Some(Json::Bool(b)) => Some(b),
        _ => None,
    }
}

pub fn bool_field(val: &Json, key: &str) -> (r: Option<bool>)
    ensures
        r == spec_bool_field(*val, key@),
{
    match get_field(val, key) {
        Some(Json::Bool(b)) => Some(*b),
        _ => None,
    }
}

/// An optional boolean field: absent or null is `Some(None)`.
pub open spec fn spec_opt_bool_field(val: Json, key: Seq<char>) -> Option<Option<bool>> {
    match json_field(val, key) {
        None => Some(None),
        Some(Json::Null) => Some(None),
        Some(Json::Bool(b)) => Some(Some(b)),
        Some(_) => None,
    }
}

pub fn opt_bool_field(val: &Json, key: &str) -> (r: Option<Option<bool>>)
    ensures
        r == spec_opt_bool_field(*val, key@),
{
    match get_field(val, key) {
        None => Some(None),
        Some(Json::Null) => Some(None),
        Some(Json::Bool(b)) => Some(Some(*b)),
        Some(_) => None,
    }
}

/// A required signed 64-bit integer field.
pub open spec fn spec_i64_field(val: Json, key: Seq<char>) -> Option<i64> {
    match json_field(val, key) {
        Some(Json::Int(i)) => Some(i),
        _ => None,
    }
}

pub fn i64_field(val: &Json, key: &str) -> (r: Option<i64>)
    ensures
        r == spec_i64_field(*val, key@),
{
    match get_field(val, key) {
        Some(Json::Int(i)) => Some(*i),
        _ => None,
    }
}

/// A required signed 32-bit integer field; values outside the range are
/// refused.
pub open spec fn spec_i32_field(val: Json, key: Seq<char>) -> Option<i32> {
    match json_field(val, key) {
        Some(Json::Int(i)) => if i32::MIN <= i <= i32::MAX {
            Some(i as i32)
        } else {
            None
        },
        _ => None,
    }
}

pub fn i32_field(val: &Json, key: &str) -> (r: Option<i32>)
    ensures
        r == spec_i32_field(*val, key@),
{
    match get_field(val, key) {
        Some(Json::Int(i)) => {
            let x = *i;
            if i32::MIN as i64 <= x && x <= i32::MAX as i64 {
                Some(x as i32)
            } else {
                None
            }
        },
        _ => None,
    }
}

/// An optional signed 32-bit integer field: absent or null is `Some(None)`.
pub open spec fn spec_opt_i32_field(val: Json, key: Seq<char>) -> Option<Option<i32>> {
    match json_field(val, key) {
        None => Some(None),
        Some(Json::Null) => Some(None),
        Some(Json::Int(i)) => if i32::MIN <= i <= i32::MAX {
            Some(Some(i as i32))
        } else {
            None
        },
        Some(_) => None,
    }
}

pub fn opt_i32_field(val: &Json, key: &str) -> (r: Option<Option<i32>>)
    ensures
        r == spec_opt_i32_field(*val, key@),
{
    match get_field(val, key) {
        None => Some(None),
        Some(Json::Null) => Some(None),
        Some(Json::Int(i)) => {
            let x = *i;
            if i32::MIN as i64 <= x && x <= i32::MAX as i64 {
                Some(Some(x as i32))
            } else {
                None
            }
        },
        Some(_) => None,
    }
}

/// An unsigned 64-bit value read from one JSON element.
pub open spec fn spec_u64_elem(j: Json) -> Option<u64> {
    match j {
        Json::Int(i) => if i >= 0 {
            Some(i as u64)
        } else {
            None
        },
        Json::UInt(u) => Some(u),
        _ => None,
    }
}

pub fn u64_elem(j: &Json) -> (r: Option<u64>)
    ensures
        r == spec_u64_elem(*j),
{
    match j {
        Json::Int(i) => {
            let x = *i;
            if x >= 0 {
                Some(x as u64)
            } else {
                None
            }
        },
        Json::UInt(u) => Some(*u),
        _ => None,
    }
}

/// A required unsigned 64-bit integer field.
pub open spec fn spec_u64_field(val: Json, key: Seq<char>) -> Option<u64> {
    match json_field(val, key) {
        Some(j) => spec_u64_elem(j),
        None => None,
    }
}

pub fn u64_field(val: &Json, key: &str) -> (r: Option<u64>)
    ensures
        r == spec_u64_field(*val, key@),
{
    match get_field(val, key) {
        Some(j) => u64_elem(j),
        None => None,
    }
}

/// A required unsigned 32-bit integer field; values outside the range are
/// refused.
pub open spec fn spec_u32_field(val: Json, key: Seq<char>) -> Option<u32> {
    match json_field(val, key) {
        Some(Json::Int(i)) => if 0 <= i <= u32::MAX {
            Some(i as u32)
        } else {
            None
        },
        _ => None,
    }
}

pub fn u32_field(val: &Json, key: &str) -> (r: Option<u32>)
    ensures
        r == spec_u32_field(*val, key@),
{
    match get_field(val, key) {
        Some(Json::Int(i)) => {
            let x = *i;
            if 0 <= x && x <= u32::MAX as i64 {
                Some(x as u32)
            } else {
                None
            }
        },
        _ => None,
    }
}

/// Maps the first `n` object fields to name/boolean pairs; one field whose
/// value is not a boolean refuses the whole list.
pub open spec fn spec_bool_fields_prefix(fields: Seq<(String, Json)>, n: int) -> Option<
    Seq<(String, bool)>,
>
    decreases n,
{
    if n <= 0 {
        Some(Seq::empty())
    } else {
        match spec_bool_fields_prefix(fields, n - 1) {
            Some(rest) => match fields[n - 1].1 {
                Json::Bool(b) => Some(rest.push((fields[n - 1].0, b))),
                _ => None,
            },
            None => None,
        }
    }
}

/// The name/boolean pairs of an object whose values are all booleans.
pub open spec fn spec_bool_obj(j: Json) -> Option<Seq<(String, bool)>> {
    match j {
        Json::Obj(fields) => spec_bool_fields_prefix(fields@, fields@.len() as int),
        _ => None,
    }
}

/// Once a field prefix is refused, every longer prefix is refused.
pub proof fn lemma_bool_fields_prefix_none(fields: Seq<(String, Json)>, i: int, n: int)
    requires
        0 <= i <= n,
        spec_bool_fields_prefix(fields, i) is None,
    ensures
        spec_bool_fields_prefix(fields, n) is None,
    decreases n,
{
    if n > i {
        lemma_bool_fields_prefix_none(fields, i, n - 1);
    }
}

pub fn bool_obj(j: &Json) -> (r: Option<Vec<(String, bool)>>)
    ensures
        match r {
            Some(v) => spec_bool_obj(*j) == Some(v@),
            None => spec_bool_obj(*j) is None,
        },
{
    match j {
        Json::Obj(fields) => {
            let n = fields.len();
            let mut out: Vec<(String, bool)> = Vec::new();
            let mut i: usize = 0;
            while i < n
                invariant
                    i <= n,
                    n == fields@.len(),
                    spec_bool_obj(*j) == spec_bool_fields_prefix(fields@, n as int),
                    spec_bool_fields_prefix(fields@, i as int) == Some(out@),
                decreases n - i,
            {
                let p = &fields[i];
                assert(*p == fields@[i as int]);
                match &p.1 {
                    Json::Bool(b) => {
                        out.push((p.0.clone(), *b));
                    },
                    _ => {
                        proof {
                            lemma_bool_fields_prefix_none(fields@, i + 1, n as int);
                        }
                        return None;
                    },
                }
                i += 1;
            }
            Some(out)
        },
        _ => None,
    }
}

} // verus!

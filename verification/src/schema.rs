//! Field access over JSON objects, shared by every typed decoder: one spec
//! function and one executable reader per field kind. A required field must
//! be present with the right type; an optional field may be absent or null.
use crate::json::{obj_lookup, Json, JsonV};
use vstd::prelude::*;

verus! {

// ---------------------------------------------------------------------------
// Spec: what each field kind denotes
// ---------------------------------------------------------------------------
/// A required integer field.
pub open spec fn f_i64(fs: Seq<(Seq<char>, JsonV)>, key: Seq<char>) -> Option<int> {
    match obj_lookup(fs, key) {
        Some(JsonV::Int(n)) => Some(n),
        _ => None,
    }
}

/// A required integer field that must fit in a `u32`.
pub open spec fn f_u32(fs: Seq<(Seq<char>, JsonV)>, key: Seq<char>) -> Option<int> {
    match obj_lookup(fs, key) {
        Some(JsonV::Int(n)) => if 0 <= n <= u32::MAX {
            Some(n)
        } else {
            None
        },
        _ => None,
    }
}

/// A required string field.
pub open spec fn f_str(fs: Seq<(Seq<char>, JsonV)>, key: Seq<char>) -> Option<Seq<char>> {
    match obj_lookup(fs, key) {
        Some(JsonV::Str(s)) => Some(s),
        _ => None,
    }
}

/// A required boolean field.
pub open spec fn f_bool(fs: Seq<(Seq<char>, JsonV)>, key: Seq<char>) -> Option<bool> {
    match obj_lookup(fs, key) {
        Some(JsonV::Bool(b)) => Some(b),
        _ => None,
    }
}

/// An optional string field: absent and null both mean none.
pub open spec fn f_opt_str(fs: Seq<(Seq<char>, JsonV)>, key: Seq<char>) -> Option<
    Option<Seq<char>>,
> {
    match obj_lookup(fs, key) {
        Some(JsonV::Str(s)) => Some(Some(s)),
        Some(JsonV::Null) => Some(None),
        None => Some(None),
        _ => None,
    }
}

/// An optional integer field: absent and null both mean none.
pub open spec fn f_opt_i64(fs: Seq<(Seq<char>, JsonV)>, key: Seq<char>) -> Option<Option<int>> {
    match obj_lookup(fs, key) {
        Some(JsonV::Int(n)) => Some(Some(n)),
        Some(JsonV::Null) => Some(None),
        None => Some(None),
        _ => None,
    }
}

/// A required array field.
pub open spec fn f_arr(fs: Seq<(Seq<char>, JsonV)>, key: Seq<char>) -> Option<Seq<JsonV>> {
    match obj_lookup(fs, key) {
        Some(JsonV::Arr(items)) => Some(items),
        _ => None,
    }
}

/// A required field of any shape, carried through unchanged.
pub open spec fn f_val(fs: Seq<(Seq<char>, JsonV)>, key: Seq<char>) -> Option<JsonV> {
    obj_lookup(fs, key)
}

/// An optional field decoded by a nested decoder elsewhere: absent and null
/// both mean none, anything else is handed on.
pub open spec fn f_opt_val(fs: Seq<(Seq<char>, JsonV)>, key: Seq<char>) -> Option<
    Option<JsonV>,
> {
    match obj_lookup(fs, key) {
        Some(JsonV::Null) => Some(None),
        Some(v) => Some(Some(v)),
        None => Some(None),
    }
}

// ---------------------------------------------------------------------------
// Exec: the readers
// ---------------------------------------------------------------------------
/// Reads a required integer field.
pub fn e_i64(j: &Json, key: &str) -> (r: Option<i64>)
    ensures
        j@ matches JsonV::Obj(fs) ==> (match r {
            Some(v) => f_i64(fs, key@) == Some(v as int),
            None => f_i64(fs, key@) is None,
        }),
{
    match j.get(key) {
        Some(v) => match v {
            Json::Int(n) => Some(*n),
            _ => None,
        },
        None => None,
    }
}

/// Reads a required integer field that must fit in a `u32`.
pub fn e_u32(j: &Json, key: &str) -> (r: Option<u32>)
    ensures
        j@ matches JsonV::Obj(fs) ==> (match r {
            Some(v) => f_u32(fs, key@) == Some(v as int),
            None => f_u32(fs, key@) is None,
        }),
{
    match j.get(key) {
        Some(v) => match v {
            Json::Int(n) => {
                let n = *n;
                if 0 <= n && n <= 4294967295i64 {
                    Some(n as u32)
                } else {
                    None
                }
            },
            _ => None,
        },
        None => None,
    }
}

/// Reads a required string field.
pub fn e_str(j: &Json, key: &str) -> (r: Option<String>)
    ensures
        j@ matches JsonV::Obj(fs) ==> (match r {
            Some(v) => f_str(fs, key@) == Some(v@),
            None => f_str(fs, key@) is None,
        }),
{
    match j.get(key) {
        Some(v) => match v {
            Json::Str(s) => Some(s.clone()),
            _ => None,
        },
        None => None,
    }
}

/// Reads a required boolean field.
pub fn e_bool(j: &Json, key: &str) -> (r: Option<bool>)
    ensures
        j@ matches JsonV::Obj(fs) ==> (match r {
            Some(v) => f_bool(fs, key@) == Some(v),
            None => f_bool(fs, key@) is None,
        }),
{
    match j.get(key) {
        Some(v) => match v {
            Json::Bool(b) => Some(*b),
            _ => None,
        },
        None => None,
    }
}

/// Reads an optional string field.
pub fn e_opt_str(j: &Json, key: &str) -> (r: Option<Option<String>>)
    ensures
        j@ matches JsonV::Obj(fs) ==> (match r {
            Some(Some(v)) => f_opt_str(fs, key@) == Some(Some(v@)),
            Some(None) => f_opt_str(fs, key@) == Some(None::<Seq<char>>),
            None => f_opt_str(fs, key@) is None,
        }),
{
    match j.get(key) {
        Some(v) => match v {
            Json::Str(s) => Some(Some(s.clone())),
            Json::Null => Some(None),
            _ => None,
        },
        None => Some(None),
    }
}

/// Reads an optional integer field.
pub fn e_opt_i64(j: &Json, key: &str) -> (r: Option<Option<i64>>)
    ensures
        j@ matches JsonV::Obj(fs) ==> (match r {
            Some(Some(v)) => f_opt_i64(fs, key@) == Some(Some(v as int)),
            Some(None) => f_opt_i64(fs, key@) == Some(None::<int>),
            None => f_opt_i64(fs, key@) is None,
        }),
{
    match j.get(key) {
        Some(v) => match v {
            Json::Int(n) => Some(Some(*n)),
            Json::Null => Some(None),
            _ => None,
        },
        None => Some(None),
    }
}

/// Reads a required field of any shape, as a copy.
pub fn e_val(j: &Json, key: &str) -> (r: Option<Json>)
    ensures
        j@ matches JsonV::Obj(fs) ==> (match r {
            Some(v) => f_val(fs, key@) == Some(v@),
            None => f_val(fs, key@) is None,
        }),
{
    match j.get(key) {
        Some(v) => Some(v.deep_clone()),
        None => None,
    }
}

/// Reads an optional field for a nested decoder.
pub fn e_opt_val<'a>(j: &'a Json, key: &str) -> (r: Option<Option<&'a Json>>)
    ensures
        j@ matches JsonV::Obj(fs) ==> (match r {
            Some(Some(v)) => f_opt_val(fs, key@) == Some(Some(v@)) && !(v@ is Null),
            Some(None) => f_opt_val(fs, key@) == Some(None::<JsonV>),
            None => false,
        }),
{
    match j.get(key) {
        Some(v) => match v {
            Json::Null => Some(None),
            _ => Some(Some(v)),
        },
        None => Some(None),
    }
}

} // verus!

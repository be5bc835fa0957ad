//! A plain model of JSON documents.
//!
//! Endpoint responses and configuration sources are JSON; the
//! interpretation and loading logic works on this owned, fully inspectable
//! representation. Numbers are kept only as far as the logic reads them:
//! a non-negative integer that fits an array index is held exactly, every
//! other number is collapsed to [`JsonVal::NumOther`].

use vstd::prelude::*;

use crate::strutil::str_eq;

verus! {

/// One JSON value. Object entries keep the order of the source document,
/// which the configuration loader's truncation policy depends on.
pub enum JsonVal {
    Null,
    Bool(bool),
    /// A non-negative integer number that fits `usize`.
    Int(usize),
    /// Any other number (negative, fractional, or out of range).
    NumOther,
    Str(String),
    Arr(Vec<JsonVal>),
    Obj(Vec<(String, JsonVal)>),
}

/// The value under `key` in an object's entry list: the first entry whose
/// key matches, or `None` when no entry does.
pub open spec fn obj_lookup(entries: Seq<(String, JsonVal)>, key: Seq<char>) -> Option<JsonVal>
    decreases entries.len(),
{
    if entries.len() == 0 {
        None
    } else if entries[0].0@ == key {
        Some(entries[0].1)
    } else {
        obj_lookup(entries.skip(1), key)
    }
}

/// Look a key up in an object's entry list.
pub fn obj_get<'a>(entries: &'a Vec<(String, JsonVal)>, key: &str) -> (r: Option<&'a JsonVal>)
    ensures
        match r {
            Some(w) => obj_lookup(entries@, key@) == Some(*w),
            None => obj_lookup(entries@, key@) is None,
        },
{
    let mut i: usize = 0;
    proof {
        assert(entries@.skip(0) =~= entries@);
    }
    while i < entries.len()
        invariant
            i <= entries@.len(),
            obj_lookup(entries@, key@) == obj_lookup(entries@.skip(i as int), key@),
        decreases entries@.len() - i,
    {
        proof {
            assert(entries@.skip(i as int)[0] == entries@[i as int]);
            assert(entries@.skip(i as int).skip(1) =~= entries@.skip(i as int + 1));
        }
        if str_eq(entries[i].0.as_str(), key) {
            return Some(&entries[i].1);
        }
        i += 1;
    }
    proof {
        assert(entries@.skip(i as int).len() == 0);
    }
    None
}

/// The value of `key` when `v` is an object that has it; `None` when `v`
/// is not an object or the key is absent.
pub open spec fn spec_field(v: JsonVal, key: Seq<char>) -> Option<JsonVal> {
    match v {
        JsonVal::Obj(entries) => obj_lookup(entries@, key),
        _ => None,
    }
}

/// Read a field of a JSON object, `None` on any other kind of value.
pub fn get_field<'a>(v: &'a JsonVal, key: &str) -> (r: Option<&'a JsonVal>)
    ensures
        match r {
            Some(w) => spec_field(*v, key@) == Some(*w),
            None => spec_field(*v, key@) is None,
        },
{
    match v {
        JsonVal::Obj(entries) => obj_get(entries, key),
        _ => None,
    }
}

} // verus!

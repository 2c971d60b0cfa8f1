//! When fields are left out of JSON.

use vstd::prelude::*;

use crate::str_map::{StrMap, StringMap};
use crate::value::StringInterface;

verus! {

pub fn is_false(b: &bool) -> (r: bool)
    ensures
        r == !*b,
{
    !*b
}

pub fn is_empty_str(s: &str) -> (r: bool)
    ensures
        r == (s@.len() == 0),
{
    s.is_empty()
}

pub fn is_zero_i64(n: &i64) -> (r: bool)
    ensures
        r == (*n == 0),
{
    *n == 0
}

pub fn is_empty_map<V>(m: &StrMap<V>) -> (r: bool)
    ensures
        r == (m@ == Map::<Seq<char>, V>::empty()),
{
    m.is_empty()
}

pub fn is_none<T>(v: &Option<T>) -> (r: bool)
    ensures
        r == (*v is None),
{
    v.is_none()
}

/// No list, or one without items.
pub fn is_none_or_empty_vec<T>(v: &Option<Vec<T>>) -> (r: bool)
    ensures
        r == match *v {
            None => true,
            Some(items) => items@.len() == 0,
        },
{
    match v {
        None => true,
        Some(items) => items.len() == 0,
    }
}

/// No map, or one without entries.
pub fn is_none_or_empty_map(m: &Option<StringInterface>) -> (r: bool)
    ensures
        r == match *m {
            None => true,
            Some(inner) => inner@ == Map::<Seq<char>, crate::value::Value>::empty(),
        },
{
    match m {
        None => true,
        Some(inner) => inner.is_empty(),
    }
}

/// No map, or one without entries.
pub fn is_none_or_empty_string_map(m: &Option<StringMap>) -> (r: bool)
    ensures
        r == match *m {
            None => true,
            Some(inner) => inner@ == Map::<Seq<char>, String>::empty(),
        },
{
    match m {
        None => true,
        Some(inner) => inner.is_empty(),
    }
}

} // verus!

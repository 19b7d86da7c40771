//! A model of JSON values as the settings file holds them, and the reading
//! of plain values out of them with the rules serde applies to JSON.

use vstd::prelude::*;

use crate::riot_datatypes::common::F64Bits;

verus! {

/// A JSON number as the JSON reader classifies it: a non-negative integer, a
/// negative integer, or a floating-point number (kept as its bit pattern).
pub enum JsonNumber {
    PosInt(u64),
    NegInt(i64),
    Float(F64Bits),
}

/// A JSON value; an object keeps its entries in the order they were read.
pub enum JsonValue {
    Null,
    Bool(bool),
    Number(JsonNumber),
    Str(String),
    Array(Vec<JsonValue>),
    Object(Vec<(String, JsonValue)>),
}

/// The value of the last entry named `key`, if there is one (a later entry
/// overrides an earlier one with the same name).
pub open spec fn lookup(entries: Seq<(String, JsonValue)>, key: Seq<char>) -> Option<JsonValue>
    decreases entries.len(),
{
    if entries.len() == 0 {
        None
    } else if entries.last().0@ == key {
        Some(entries.last().1)
    } else {
        lookup(entries.drop_last(), key)
    }
}

/// Looking up a key in one more entry: the new entry wins if it has the key.
pub proof fn lemma_lookup_take(entries: Seq<(String, JsonValue)>, i: int)
    requires
        0 <= i < entries.len(),
    ensures
        forall|k: Seq<char>| #[trigger] lookup(entries.take(i + 1), k) == if entries[i].0@ == k {
            Some(entries[i].1)
        } else {
            lookup(entries.take(i), k)
        },
{
    assert(entries.take(i + 1).drop_last() =~= entries.take(i));
    assert(entries.take(i + 1).last() == entries[i]);
}

/// The last entry named `k` decides the lookup.
pub proof fn lemma_lookup_last_occurrence(entries: Seq<(String, JsonValue)>, j: int, k: Seq<char>)
    requires
        0 <= j < entries.len(),
        entries[j].0@ == k,
        forall|m: int| j < m < entries.len() ==> entries[m].0@ != k,
    ensures
        lookup(entries, k) == Some(entries[j].1),
    decreases entries.len(),
{
    if j < entries.len() - 1 {
        assert(entries.last() == entries[entries.len() - 1]);
        lemma_lookup_last_occurrence(entries.drop_last(), j, k);
    }
}

/// A key no entry has is not found.
pub proof fn lemma_lookup_absent(entries: Seq<(String, JsonValue)>, k: Seq<char>)
    requires
        forall|m: int| 0 <= m < entries.len() ==> entries[m].0@ != k,
    ensures
        lookup(entries, k) is None,
    decreases entries.len(),
{
    if entries.len() > 0 {
        assert(entries.last() == entries[entries.len() - 1]);
        lemma_lookup_absent(entries.drop_last(), k);
    }
}

/// A boolean, if the value is one.
pub open spec fn spec_as_bool(v: JsonValue) -> Option<bool> {
    match v {
        JsonValue::Bool(b) => Some(b),
        _ => None,
    }
}

/// A `u32`, if the value is a non-negative integer that fits.
pub open spec fn spec_as_u32(v: JsonValue) -> Option<u32> {
    match v {
        JsonValue::Number(JsonNumber::PosInt(n)) => if n <= u32::MAX { Some(n as u32) } else { None },
        _ => None,
    }
}

/// The characters of a string value.
pub open spec fn spec_as_str(v: JsonValue) -> Option<Seq<char>> {
    match v {
        JsonValue::Str(s) => Some(s@),
        _ => None,
    }
}

/// An optional positive `u64`: `null` is `None`, a positive integer is
/// `Some`; anything else cannot be read (the outer `None`).
pub open spec fn spec_as_opt_positive(v: JsonValue) -> Option<Option<u64>> {
    match v {
        JsonValue::Null => Some(None),
        JsonValue::Number(JsonNumber::PosInt(n)) => if n > 0 { Some(Some(n)) } else { None },
        _ => None,
    }
}

pub fn as_bool(v: &JsonValue) -> (r: Option<bool>)
    ensures
        r == spec_as_bool(*v),
{
    match v {
        JsonValue::Bool(b) => Some(*b),
        _ => None,
    }
}

pub fn as_u32(v: &JsonValue) -> (r: Option<u32>)
    ensures
        r == spec_as_u32(*v),
{
    match v {
        JsonValue::Number(JsonNumber::PosInt(n)) => if *n <= 0xffff_ffffu64 {
            Some(*n as u32)
        } else {
            None
        },
        _ => None,
    }
}

pub fn as_string(v: &JsonValue) -> (r: Option<String>)
    ensures
        r matches Some(s) ==> spec_as_str(*v) == Some(s@),
        r is None ==> spec_as_str(*v) is None,
{
    match v {
        JsonValue::Str(s) => Some(s.clone()),
        _ => None,
    }
}

pub fn as_opt_positive(v: &JsonValue) -> (r: Option<Option<u64>>)
    ensures
        r == spec_as_opt_positive(*v),
{
    match v {
        JsonValue::Null => Some(None),
        JsonValue::Number(JsonNumber::PosInt(n)) => if *n > 0 { Some(Some(*n)) } else { None },
        _ => None,
    }
}

/// A JSON string value with the characters of `s`.
pub fn string_value(s: &str) -> (r: JsonValue)
    ensures
        r matches JsonValue::Str(t) && t@ == s@,
{
    JsonValue::Str(String::from_str(s))
}

/// A JSON value for an optional integer: `null` for `None`.
pub fn opt_u64_value(n: Option<u64>) -> (r: JsonValue)
    ensures
        n != Some(0u64) ==> spec_as_opt_positive(r) == Some(n),
        n is None ==> r == JsonValue::Null,
        n matches Some(k) ==> r == JsonValue::Number(JsonNumber::PosInt(k)),
{
    match n {
        Some(k) => JsonValue::Number(JsonNumber::PosInt(k)),
        None => JsonValue::Null,
    }
}

} // verus!

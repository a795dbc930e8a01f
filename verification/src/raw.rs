//! The untyped per-component configuration a loaded document hands the
//! registries: a flat table of keys to scalar values.

use crate::point::StrMap;
use vstd::prelude::*;

verus! {

/// One scalar of a component's raw configuration.
#[derive(Debug, PartialEq, Eq)]
pub enum RawValue {
    Text(String),
    Truth(bool),
    Number(i64),
}

/// The mathematical value of a `RawValue`.
pub enum RawValueView {
    Text(Seq<char>),
    Truth(bool),
    Number(int),
}

impl View for RawValue {
    type V = RawValueView;

    open spec fn view(&self) -> RawValueView {
        match self {
            RawValue::Text(s) => RawValueView::Text(s@),
            RawValue::Truth(b) => RawValueView::Truth(*b),
            RawValue::Number(i) => RawValueView::Number(*i as int),
        }
    }
}

impl RawValue {
    pub fn duplicate(&self) -> (r: Self)
        ensures
            r@ == self@,
    {
        match self {
            RawValue::Text(s) => RawValue::Text(s.clone()),
            RawValue::Truth(b) => RawValue::Truth(*b),
            RawValue::Number(i) => RawValue::Number(*i),
        }
    }
}

/// A component's raw configuration fragment.
pub type RawTable = StrMap<RawValue>;

/// The table holds `key` as a character string.
pub open spec fn has_text(m: Map<Seq<char>, RawValueView>, key: Seq<char>) -> bool {
    m.contains_key(key) && m[key] is Text
}

/// The character string bound to `key`.
pub open spec fn text_of(m: Map<Seq<char>, RawValueView>, key: Seq<char>) -> Seq<char> {
    match m[key] {
        RawValueView::Text(s) => s,
        _ => Seq::empty(),
    }
}

/// Either the table lacks `key`, or it binds it to a character string.
pub open spec fn text_optional(m: Map<Seq<char>, RawValueView>, key: Seq<char>) -> bool {
    !m.contains_key(key) || m[key] is Text
}

/// The string bound to `key`, if the key is there.
pub open spec fn opt_text_of(m: Map<Seq<char>, RawValueView>, key: Seq<char>) -> Option<
    Seq<char>,
> {
    if m.contains_key(key) {
        Some(text_of(m, key))
    } else {
        None
    }
}

/// Either the table lacks `key`, or it binds it to a truth value.
pub open spec fn truth_optional(m: Map<Seq<char>, RawValueView>, key: Seq<char>) -> bool {
    !m.contains_key(key) || m[key] is Truth
}

/// The truth value bound to `key`, if the key is there.
pub open spec fn opt_truth_of(m: Map<Seq<char>, RawValueView>, key: Seq<char>) -> Option<bool> {
    if m.contains_key(key) && m[key] is Truth {
        match m[key] {
            RawValueView::Truth(b) => Some(b),
            _ => None,
        }
    } else {
        None
    }
}

/// Fetch a required string-typed key.
pub fn read_text(table: &RawTable, key: &str) -> (r: Option<String>)
    ensures
        r is Some <==> has_text(table@, key@),
        r matches Some(s) ==> s@ == text_of(table@, key@),
{
    match table.get(key) {
        Some(RawValue::Text(s)) => Some(s.clone()),
        _ => None,
    }
}

/// Fetch an optional string-typed key, distinguishing absence from a value
/// of the wrong type.
pub fn read_text_opt(table: &RawTable, key: &str) -> (r: Result<Option<String>, ()>)
    ensures
        r is Ok <==> text_optional(table@, key@),
        r matches Ok(o) ==> match o {
            Some(s) => opt_text_of(table@, key@) == Some(s@),
            None => opt_text_of(table@, key@) is None,
        },
{
    match table.get(key) {
        None => Ok(None),
        Some(RawValue::Text(s)) => Ok(Some(s.clone())),
        Some(_) => Err(()),
    }
}

/// Fetch an optional boolean key, distinguishing absence from a value of
/// the wrong type.
pub fn read_truth_opt(table: &RawTable, key: &str) -> (r: Result<Option<bool>, ()>)
    ensures
        r is Ok <==> truth_optional(table@, key@),
        r matches Ok(o) ==> o == opt_truth_of(table@, key@),
{
    match table.get(key) {
        None => Ok(None),
        Some(RawValue::Truth(b)) => Ok(Some(*b)),
        Some(_) => Err(()),
    }
}

} // verus!

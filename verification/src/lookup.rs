//! Finding the record that has a given value in one column.

use crate::codes::{all, table};
use crate::record::{CountryCode, Field, Record};
use crate::text::str_eq;
use vstd::prelude::*;

verus! {

/// Position `i` of `s` holds the first record whose `field` is `value`.
pub open spec fn first_at(s: Seq<Record>, field: Field, value: Seq<char>, i: int) -> bool {
    &&& 0 <= i < s.len()
    &&& s[i].get(field) == value
    &&& forall|j: int| 0 <= j < i ==> (#[trigger] s[j]).get(field) != value
}

/// No record of `s` has `value` as its `field`.
pub open spec fn absent(s: Seq<Record>, field: Field, value: Seq<char>) -> bool {
    forall|i: int| 0 <= i < s.len() ==> (#[trigger] s[i]).get(field) != value
}

/// `found` is what looking up `value` in column `field` of `s` gives: the
/// first record of `s` whose `field` is `value`, or nothing where `s` has no
/// such record.
pub open spec fn is_lookup(
    s: Seq<Record>,
    field: Field,
    value: Seq<char>,
    found: Option<Record>,
) -> bool {
    match found {
        Some(r) => exists|i: int| #[trigger] first_at(s, field, value, i) && s[i] == r,
        None => absent(s, field, value),
    }
}

/// Returns the first record of the table whose `field` is exactly `value`, if
/// there is one.
pub fn find<'a>(field: Field, value: &str) -> (r: Option<CountryCode<'a>>)
    ensures
        is_lookup(table(), field, value@, r.deep_view()),
{
    let codes = all();
    for code in it: codes
        invariant
            it.seq().len() == table().len(),
            forall|j: int| 0 <= j < it.seq().len() ==> (#[trigger] it.seq()[j])@ == table()[j],
            forall|j: int| 0 <= j < it.index() ==> (#[trigger] table()[j]).get(field) != value@,
    {
        if str_eq(code.get(field), value) {
            assert(first_at(table(), field, value@, it.index() as int));
            return Some(code);
        }
    }
    None
}

/// Returns the record with the given alpha-2 code, if one exists.
pub fn alpha2<'a>(code: &str) -> (r: Option<CountryCode<'a>>)
    ensures
        is_lookup(table(), Field::Alpha2, code@, r.deep_view()),
{
    find(Field::Alpha2, code)
}

/// Returns the record with the given alpha-3 code, if one exists.
pub fn alpha3<'a>(code: &str) -> (r: Option<CountryCode<'a>>)
    ensures
        is_lookup(table(), Field::Alpha3, code@, r.deep_view()),
{
    find(Field::Alpha3, code)
}

/// Returns the record with the given name, if one exists.
pub fn name<'a>(value: &str) -> (r: Option<CountryCode<'a>>)
    ensures
        is_lookup(table(), Field::Name, value@, r.deep_view()),
{
    find(Field::Name, value)
}

/// Returns the record with the given numeric code, if one exists.
pub fn num<'a>(code: &str) -> (r: Option<CountryCode<'a>>)
    ensures
        is_lookup(table(), Field::Num, code@, r.deep_view()),
{
    find(Field::Num, code)
}

} // verus!

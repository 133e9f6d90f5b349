//! Laws that relate the table, the lookups and the range query.

use crate::codes::table;
use crate::literals::lemma_table_distinct;
use crate::lookup::{first_at, is_lookup};
use crate::range::{in_range, number, within};
use crate::record::{all_distinct, Field, Record};
use vstd::prelude::*;

verus! {

/// A lookup has one outcome: two outcomes of looking up the same value in the
/// same column of the same sequence are equal.
pub proof fn lemma_lookup_is_determined(
    s: Seq<Record>,
    field: Field,
    value: Seq<char>,
    a: Option<Record>,
    b: Option<Record>,
)
    requires
        is_lookup(s, field, value, a),
        is_lookup(s, field, value, b),
    ensures
        a == b,
{
    if a is Some && b is Some {
        let i = choose|i: int| #[trigger] first_at(s, field, value, i) && s[i] == a.unwrap();
        let j = choose|j: int| #[trigger] first_at(s, field, value, j) && s[j] == b.unwrap();
        assert(s[i].get(field) == value && s[j].get(field) == value);
        assert(i == j);
    } else if a is Some {
        let i = choose|i: int| #[trigger] first_at(s, field, value, i) && s[i] == a.unwrap();
        assert(s[i].get(field) == value);
    } else if b is Some {
        let j = choose|j: int| #[trigger] first_at(s, field, value, j) && s[j] == b.unwrap();
        assert(s[j].get(field) == value);
    }
}

/// Where no two records agree in any column, looking up the value that a
/// record has in a column gives that record, and it is the only record with
/// that value.
pub proof fn lemma_lookup_finds_the_record(s: Seq<Record>, field: Field, i: int)
    requires
        all_distinct(s),
        0 <= i < s.len(),
    ensures
        is_lookup(s, field, s[i].get(field), Some(s[i])),
        forall|j: int| 0 <= j < s.len() && j != i ==> (#[trigger] s[j]).get(field) != s[i].get(field),
{
    assert forall|j: int| 0 <= j < s.len() && j != i implies (#[trigger] s[j]).get(field) != s[i].get(
        field,
    ) by {
        assert(s[j].differs_everywhere(s[i]));
    }
    assert(first_at(s, field, s[i].get(field), i));
}

/// Every record of the table is found under each of its four values.
pub proof fn lemma_table_lookup(field: Field, i: int)
    requires
        0 <= i < table().len(),
    ensures
        is_lookup(table(), field, table()[i].get(field), Some(table()[i])),
{
    lemma_table_distinct();
    lemma_lookup_finds_the_record(table(), field, i);
}

/// With neither bound given, the range query selects nothing, whatever the
/// records are.
pub proof fn lemma_no_bounds_select_nothing(s: Seq<Record>)
    ensures
        within(s, None, None) == Seq::<Record>::empty(),
    decreases s.len(),
{
    reveal(Seq::filter);
    if s.len() > 0 {
        lemma_no_bounds_select_nothing(s.drop_last());
    }
}

/// The range query selects exactly the records whose numeric code lies within
/// the bounds: each selected record is one of `s` and lies within them, and
/// each record of `s` that lies within them is selected.
pub proof fn lemma_within_members(s: Seq<Record>, from: Option<int>, to: Option<int>)
    ensures
        forall|r: Record| #[trigger]
            within(s, from, to).contains(r) <==> s.contains(r) && in_range(from, to, number(r)),
        within(s, from, to).len() <= s.len(),
{
    let keep = |r: Record| in_range(from, to, number(r));
    s.lemma_filter_len(keep);
    assert forall|r: Record| #[trigger]
        within(s, from, to).contains(r) <==> s.contains(r) && in_range(from, to, number(r)) by {
        if within(s, from, to).contains(r) {
            let k = choose|k: int| 0 <= k < s.filter(keep).len() && s.filter(keep)[k] == r;
            s.lemma_filter_pred(keep, k);
            s.lemma_filter_contains_rev(keep, r);
        }
        if s.contains(r) && in_range(from, to, number(r)) {
            let k = choose|k: int| 0 <= k < s.len() && s[k] == r;
            s.lemma_filter_contains(keep, k);
        }
    }
}

} // verus!

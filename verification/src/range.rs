//! Selecting the records whose numeric code lies within optional bounds.

use crate::codes::{all, table};
use crate::laws::lemma_no_bounds_select_nothing;
use crate::record::{all_well_formed, is_num, CountryCode, Record};
use crate::text::{decimal_value, lemma_three_digits, parse_failure, read_i16, str_to_i16};
use std::num::ParseIntError;
use vstd::prelude::*;

verus! {

/// Whether `n` lies within the bounds, each of them inclusive where it is
/// given. With no bound at all, no number does.
pub open spec fn in_range(from: Option<int>, to: Option<int>, n: int) -> bool {
    match (from, to) {
        (Some(low), Some(high)) => low <= n <= high,
        (Some(low), None) => low <= n,
        (None, Some(high)) => n <= high,
        (None, None) => false,
    }
}

/// The numeric code of `r` as a number.
pub open spec fn number(r: Record) -> int {
    decimal_value(r.num)
}

/// The records of `s` whose numeric code lies within the bounds, in the order
/// in which `s` holds them.
pub open spec fn within(s: Seq<Record>, from: Option<int>, to: Option<int>) -> Seq<Record> {
    s.filter(|r: Record| in_range(from, to, number(r)))
}

/// An optional `i16` as an optional integer.
pub open spec fn widen(bound: Option<i16>) -> Option<int> {
    match bound {
        Some(n) => Some(n as int),
        None => None,
    }
}

/// Whether a bound can be read: it is absent, or it denotes an `i16`.
pub open spec fn readable(text: Option<&str>) -> bool {
    text matches Some(s) ==> read_i16(s@) is Some
}

/// The number that a readable bound denotes, if the bound is present.
pub open spec fn bound(text: Option<&str>) -> Option<int> {
    match text {
        Some(s) => read_i16(s@),
        None => None,
    }
}

/// The ASCII code of the digit `0`.
const ASCII_ZERO: u8 = 48;

/// Reads a numeric code of three decimal digits as the number it spells.
fn three_digits(num: &str) -> (n: i16)
    requires
        is_num(num@),
    ensures
        n == decimal_value(num@),
{
    proof {
        lemma_three_digits(num@);
    }
    let hundreds = num.get_ascii(0) - ASCII_ZERO;
    let tens = num.get_ascii(1) - ASCII_ZERO;
    let ones = num.get_ascii(2) - ASCII_ZERO;
    hundreds as i16 * 100 + tens as i16 * 10 + ones as i16
}

/// Whether `n` lies within the bounds.
pub fn contains(from: Option<i16>, to: Option<i16>, n: i16) -> (r: bool)
    ensures
        r == in_range(widen(from), widen(to), n as int),
{
    match (from, to) {
        (Some(low), Some(high)) => low <= n && n <= high,
        (Some(low), None) => low <= n,
        (None, Some(high)) => n <= high,
        (None, None) => false,
    }
}

/// Returns the records of the table whose numeric code lies within the
/// bounds, in table order.
pub fn select<'a>(from: Option<i16>, to: Option<i16>) -> (r: Vec<CountryCode<'a>>)
    ensures
        r.deep_view() == within(table(), widen(from), widen(to)),
{
    let codes = all();
    let mut out: Vec<CountryCode<'a>> = Vec::new();
    let ghost keep = |r: Record| in_range(widen(from), widen(to), number(r));
    proof {
        reveal(Seq::filter);
        assert(out.deep_view() =~= table().take(0).filter(keep));
    }
    for code in it: codes
        invariant
            it.seq().len() == table().len(),
            forall|j: int| 0 <= j < it.seq().len() ==> (#[trigger] it.seq()[j])@ == table()[j],
            all_well_formed(table()),
            keep == |r: Record| in_range(widen(from), widen(to), number(r)),
            out.deep_view() == table().take(it.index() as int).filter(keep),
    {
        let ghost k = it.index() as int;
        let ghost before = out.deep_view();
        proof {
            reveal(Seq::filter);
            assert(table().take(k + 1).drop_last() =~= table().take(k));
            assert(table().take(k + 1).last() == table()[k]);
            assert(code@ == table()[k] && table()[k].well_formed());
        }
        let n = three_digits(code.num);
        if contains(from, to, n) {
            out.push(code);
            assert(out.deep_view() =~= before.push(table()[k]));
        }
    }
    proof {
        assert(table().take(table().len() as int) =~= table());
    }
    out
}

/// Reads an optional bound.
fn read_bound(text: Option<&str>) -> (r: Result<Option<i16>, ParseIntError>)
    ensures
        match r {
            Ok(b) => readable(text) && widen(b) == bound(text),
            Err(e) => !readable(text) && e == parse_failure(text.unwrap()@),
        },
{
    match text {
        Some(s) => match str_to_i16(s) {
            Ok(n) => Ok(Some(n)),
            Err(e) => Err(e),
        },
        None => Ok(None),
    }
}

/// Returns the records whose numeric code lies within the range of the `from`
/// and `to` given, in table order.
///
/// Each bound is optional. One that is given is read as an `i16` and counts as
/// part of the range. With both bounds, the codes from `from` to `to` are
/// selected; with `from` alone, the codes from it upwards; with `to` alone, the
/// codes up to it; with neither, none at all. A bound that does not read as an
/// `i16` is an error, that of `from` first.
pub fn num_range<'a>(from: Option<&str>, to: Option<&str>) -> (r: Result<
    Vec<CountryCode<'a>>,
    ParseIntError,
>)
    ensures
        match r {
            Ok(v) => {
                &&& readable(from)
                &&& readable(to)
                &&& v.deep_view() == within(table(), bound(from), bound(to))
            },
            Err(e) => if !readable(from) {
                e == parse_failure(from.unwrap()@)
            } else {
                !readable(to) && e == parse_failure(to.unwrap()@)
            },
        },
        from is None && to is None ==> (r matches Ok(v) && v.len() == 0),
{
    let low = match read_bound(from) {
        Ok(b) => b,
        Err(e) => return Err(e),
    };
    let high = match read_bound(to) {
        Ok(b) => b,
        Err(e) => return Err(e),
    };
    let selected = select(low, high);
    proof {
        lemma_no_bounds_select_nothing(table());
        assert(selected.deep_view().len() == selected.len());
    }
    Ok(selected)
}

} // verus!

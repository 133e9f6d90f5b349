//! Strings: equality, and reading a decimal integer.

use crate::record::{all_digits, is_digit};
use std::num::ParseIntError;
use vstd::prelude::*;
use vstd::utf8::{encode_utf8, encode_utf8_decode_utf8};

verus! {

/// The error of `str::parse` for an integer type, carried through unopened.
#[verifier::external_type_specification]
#[verifier::external_body]
pub struct ExParseIntError(ParseIntError);

/// Whether `a` and `b` hold the same characters.
pub fn str_eq(a: &str, b: &str) -> (r: bool)
    ensures
        r == (a@ == b@),
{
    let x = a.as_bytes();
    let y = b.as_bytes();
    proof {
        // A string is what its UTF-8 bytes decode to, so equal bytes mean
        // equal strings.
        encode_utf8_decode_utf8(a@);
        encode_utf8_decode_utf8(b@);
    }
    if x.len() != y.len() {
        return false;
    }
    let mut i: usize = 0;
    while i < x.len()
        invariant
            i <= x.len(),
            x.len() == y.len(),
            x@ == encode_utf8(a@),
            y@ == encode_utf8(b@),
            forall|k: int| 0 <= k < i ==> x@[k] == y@[k],
        decreases x.len() - i,
    {
        if x[i] != y[i] {
            return false;
        }
        i += 1;
    }
    assert(x@ =~= y@);
    true
}

/// The number that a string of decimal digits denotes; 0 for the empty string.
pub open spec fn decimal_value(digits: Seq<char>) -> int
    decreases digits.len(),
{
    if digits.len() == 0 {
        0
    } else {
        10 * decimal_value(digits.drop_last()) + (digits.last() as int - '0' as int)
    }
}

/// Whether `s` begins with a plus or a minus sign.
pub open spec fn has_sign(s: Seq<char>) -> bool {
    s.len() > 0 && (s[0] == '+' || s[0] == '-')
}

/// The integer that `s` denotes when it is written as an optional sign
/// followed by one or more decimal digits, whatever its size.
pub open spec fn read_integer(s: Seq<char>) -> Option<int> {
    let digits = if has_sign(s) { s.skip(1) } else { s };
    if digits.len() == 0 || !all_digits(digits) {
        None
    } else if has_sign(s) && s[0] == '-' {
        Some(-decimal_value(digits))
    } else {
        Some(decimal_value(digits))
    }
}

/// The `i16` that `s` denotes: an optional sign, then one or more decimal
/// digits and nothing else, for a number from -32768 to 32767.
pub open spec fn read_i16(s: Seq<char>) -> Option<int> {
    match read_integer(s) {
        Some(n) if i16::MIN <= n <= i16::MAX => Some(n),
        _ => None,
    }
}

/// The error that `str::parse::<i16>` returns for a string it does not accept.
pub uninterp spec fn parse_failure(s: Seq<char>) -> ParseIntError;

/// Calls `str::parse::<i16>`. Trusted, not proved: the call succeeds exactly on
/// the strings that [`read_i16`] accepts and then returns that number; its
/// error depends on the string alone.
#[verifier::external_body]
pub(crate) fn str_to_i16(s: &str) -> (r: Result<i16, ParseIntError>)
    ensures
        match r {
            Ok(n) => read_i16(s@) == Some(n as int),
            Err(e) => read_i16(s@) is None && e == parse_failure(s@),
        },
{
    s.parse::<i16>()
}

/// Three decimal digits denote the number from 0 to 999 that they spell, and
/// so read as an `i16`.
pub proof fn lemma_three_digits(s: Seq<char>)
    requires
        s.len() == 3,
        all_digits(s),
    ensures
        decimal_value(s) == 100 * (s[0] as int - '0' as int) + 10 * (s[1] as int - '0' as int) + (
        s[2] as int - '0' as int),
        0 <= decimal_value(s) <= 999,
        read_i16(s) == Some(decimal_value(s)),
{
    let s2 = s.drop_last();
    let s1 = s2.drop_last();
    assert(is_digit(s[0]) && is_digit(s[1]) && is_digit(s[2]));
    assert(s1.drop_last().len() == 0);
    assert(decimal_value(s1) == s[0] as int - '0' as int) by {
        reveal_with_fuel(decimal_value, 2);
    }
    assert(decimal_value(s2) == 10 * decimal_value(s1) + (s[1] as int - '0' as int));
    assert(decimal_value(s) == 10 * decimal_value(s2) + (s[2] as int - '0' as int));
}

} // verus!

//! JSON numbers: an optional minus, an integer part, an optional fraction
//! and an optional exponent.

use vstd::prelude::*;

verus! {

/// One of `0` to `9`.
pub open spec fn is_digit(c: char) -> bool {
    '0' <= c && c <= '9'
}

/// At least one digit, and digits only.
pub open spec fn is_digits(s: Seq<char>) -> bool {
    s.len() > 0 && forall|i: int| 0 <= i < s.len() ==> is_digit(#[trigger] s[i])
}

/// Nothing, or a minus.
pub open spec fn is_sign(s: Seq<char>) -> bool {
    s.len() == 0 || (s.len() == 1 && s[0] == '-')
}

/// A single `0`, or digits that do not start with `0`.
pub open spec fn is_integer(s: Seq<char>) -> bool {
    is_digits(s) && (s[0] == '0' ==> s.len() == 1)
}

/// Nothing, or a point and digits.
pub open spec fn is_fraction(s: Seq<char>) -> bool {
    s.len() == 0 || (s[0] == '.' && is_digits(s.skip(1)))
}

/// Nothing, or `e` or `E`, then digits with or without a sign before them.
pub open spec fn is_exponent(s: Seq<char>) -> bool {
    s.len() == 0 || ((s[0] == 'e' || s[0] == 'E') && (is_digits(s.skip(1)) || (s.len() > 1 && (s[1]
        == '+' || s[1] == '-') && is_digits(s.skip(2)))))
}

/// `s` is a sign up to `i`, an integer part up to `j`, a fraction up to `k`
/// and an exponent from there on.
pub open spec fn splits_as_number(s: Seq<char>, i: int, j: int, k: int) -> bool {
    &&& 0 <= i <= j <= k <= s.len()
    &&& is_sign(s.subrange(0, i))
    &&& is_integer(s.subrange(i, j))
    &&& is_fraction(s.subrange(j, k))
    &&& is_exponent(s.subrange(k, s.len() as int))
}

/// A JSON number.
pub open spec fn is_number(s: Seq<char>) -> bool {
    exists|i: int, j: int, k: int| splits_as_number(s, i, j, k)
}

} // verus!

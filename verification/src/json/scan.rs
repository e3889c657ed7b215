//! Telling what a string is: plain enough to stand between quotes, or a
//! number.

use crate::json::number::{
    is_digit, is_digits, is_exponent, is_fraction, is_number, splits_as_number,
};
use crate::json::syntax::is_plain;
use vstd::prelude::*;
use vstd::std_specs::iter::IteratorSpec;

verus! {

/// The index of the first character at or after `from` that is no digit.
spec fn digits_end(s: Seq<char>, from: int) -> int
    decreases s.len() - from,
{
    if 0 <= from < s.len() && is_digit(s[from]) {
        digits_end(s, from + 1)
    } else {
        from
    }
}

/// Where the integer part of a number that starts at `from` ends, if there
/// is one: a single `0`, or digits that do not start with `0`.
spec fn integer_end(s: Seq<char>, from: int) -> Option<int> {
    let end = digits_end(s, from);
    if end == from {
        None
    } else if s[from] == '0' && end > from + 1 {
        None
    } else {
        Some(end)
    }
}

/// Where the optional fraction that starts at `from` ends: a point and at
/// least one digit, or nothing.
spec fn fraction_end(s: Seq<char>, from: int) -> Option<int> {
    if 0 <= from < s.len() && s[from] == '.' {
        let end = digits_end(s, from + 1);
        if end == from + 1 {
            None
        } else {
            Some(end)
        }
    } else {
        Some(from)
    }
}

/// Where the optional exponent that starts at `from` ends: `e` or `E`, an
/// optional sign and at least one digit, or nothing.
spec fn exponent_end(s: Seq<char>, from: int) -> Option<int> {
    if 0 <= from < s.len() && (s[from] == 'e' || s[from] == 'E') {
        let digits = if from + 1 < s.len() && (s[from + 1] == '+' || s[from + 1] == '-') {
            from + 2
        } else {
            from + 1
        };
        let end = digits_end(s, digits);
        if end == digits {
            None
        } else {
            Some(end)
        }
    } else {
        Some(from)
    }
}

/// Whether a scan from left to right takes all of `s` for a number: a minus
/// if there is one, the digits of the integer part, a fraction if a point
/// follows, an exponent if `e` or `E` follows, and then the end.
spec fn scans_as_number(s: Seq<char>) -> bool {
    let start: int = if s.len() > 0 && s[0] == '-' { 1 } else { 0 };
    match integer_end(s, start) {
        None => false,
        Some(after_integer) => match fraction_end(s, after_integer) {
            None => false,
            Some(after_fraction) => exponent_end(s, after_fraction) == Some(s.len() as int),
        },
    }
}

/// From `from` to where the digits end there are digits only, and no digit
/// follows them.
proof fn lemma_digits_end(s: Seq<char>, from: int)
    requires
        0 <= from <= s.len(),
    ensures
        from <= digits_end(s, from) <= s.len(),
        forall|i: int| from <= i < digits_end(s, from) ==> is_digit(#[trigger] s[i]),
        digits_end(s, from) < s.len() ==> !is_digit(s[digits_end(s, from)]),
    decreases s.len() - from,
{
    if from < s.len() && is_digit(s[from]) {
        lemma_digits_end(s, from + 1);
    }
}

/// Digits from `from` up to `to`, with no digit after them, end at `to`.
proof fn lemma_digits_end_at(s: Seq<char>, from: int, to: int)
    requires
        0 <= from <= to <= s.len(),
        forall|i: int| from <= i < to ==> is_digit(#[trigger] s[i]),
        to < s.len() ==> !is_digit(s[to]),
    ensures
        digits_end(s, from) == to,
    decreases to - from,
{
    if from < to {
        lemma_digits_end_at(s, from + 1, to);
    }
}

/// The digits of `s` from `from` up to `to`, as a string of their own.
proof fn lemma_digits_of_subrange(s: Seq<char>, from: int, to: int)
    requires
        0 <= from <= to <= s.len(),
    ensures
        is_digits(s.subrange(from, to)) <==> from < to && forall|i: int|
            from <= i < to ==> is_digit(#[trigger] s[i]),
{
    let part = s.subrange(from, to);
    if is_digits(part) {
        assert forall|i: int| from <= i < to implies is_digit(#[trigger] s[i]) by {
            assert(part[i - from] == s[i]);
        }
    }
    if from < to && forall|i: int| from <= i < to ==> is_digit(#[trigger] s[i]) {
        assert forall|i: int| 0 <= i < part.len() implies is_digit(#[trigger] part[i]) by {
            assert(part[i] == s[from + i]);
        }
    }
}

/// What a scan takes for a number is one.
proof fn lemma_scanned_is_number(s: Seq<char>)
    requires
        scans_as_number(s),
    ensures
        is_number(s),
{
    let len = s.len() as int;
    let i: int = if len > 0 && s[0] == '-' { 1 } else { 0 };
    lemma_digits_end(s, i);
    let j = digits_end(s, i);
    lemma_digits_of_subrange(s, i, j);
    assert(s.subrange(i, j)[0] == s[i]);
    let k = fraction_end(s, j)->0;
    if j < len && s[j] == '.' {
        lemma_digits_end(s, j + 1);
        lemma_digits_of_subrange(s, j + 1, k);
        assert(s.subrange(j, k).skip(1) =~= s.subrange(j + 1, k));
        assert(s.subrange(j, k)[0] == s[j]);
    }
    assert(is_fraction(s.subrange(j, k)));
    if k < len && (s[k] == 'e' || s[k] == 'E') {
        let signed = k + 1 < len && (s[k + 1] == '+' || s[k + 1] == '-');
        let digits = if signed { k + 2 } else { k + 1 };
        lemma_digits_end(s, digits);
        lemma_digits_of_subrange(s, digits, len);
        let part = s.subrange(k, len);
        assert(part[0] == s[k]);
        if signed {
            assert(part[1] == s[k + 1]);
            assert(part.skip(2) =~= s.subrange(digits, len));
        } else {
            assert(part.skip(1) =~= s.subrange(digits, len));
        }
    }
    assert(is_exponent(s.subrange(k, len)));
    if i == 1 {
        assert(s.subrange(0, i)[0] == s[0]);
    }
    assert(splits_as_number(s, i, j, k));
}

/// A scan takes every number for one.
proof fn lemma_number_is_scanned(s: Seq<char>, i: int, j: int, k: int)
    requires
        splits_as_number(s, i, j, k),
    ensures
        scans_as_number(s),
{
    let len = s.len() as int;
    let start: int = if len > 0 && s[0] == '-' { 1 } else { 0 };
    let integer = s.subrange(i, j);
    let fraction = s.subrange(j, k);
    let exponent = s.subrange(k, len);
    lemma_digits_of_subrange(s, i, j);
    assert(integer[0] == s[i]);
    if i == 1 {
        assert(s.subrange(0, i)[0] == s[0]);
    }
    assert(i == start);
    if k > j {
        assert(fraction[0] == s[j]);
        assert(fraction.skip(1) =~= s.subrange(j + 1, k));
        lemma_digits_of_subrange(s, j + 1, k);
    }
    if k < len {
        assert(exponent[0] == s[k]);
    }
    assert(j < len ==> !is_digit(s[j]));
    lemma_digits_end_at(s, i, j);
    assert(integer_end(s, start) == Some(j));
    if k > j {
        assert(k < len ==> !is_digit(s[k]));
        lemma_digits_end_at(s, j + 1, k);
    }
    assert(fraction_end(s, j) == Some(k));
    if k < len {
        if is_digits(exponent.skip(1)) {
            assert(exponent.skip(1) =~= s.subrange(k + 1, len));
            lemma_digits_of_subrange(s, k + 1, len);
            assert(is_digit(s[k + 1]));
            lemma_digits_end_at(s, k + 1, len);
        } else {
            assert(exponent[1] == s[k + 1]);
            assert(exponent.skip(2) =~= s.subrange(k + 2, len));
            lemma_digits_of_subrange(s, k + 2, len);
            lemma_digits_end_at(s, k + 2, len);
        }
    }
    assert(exponent_end(s, k) == Some(len));
}

/// A string is a number exactly if a scan takes it for one.
proof fn lemma_scan_decides(s: Seq<char>)
    ensures
        scans_as_number(s) == is_number(s),
{
    if scans_as_number(s) {
        lemma_scanned_is_number(s);
    }
    if is_number(s) {
        let (i, j, k) = choose|i: int, j: int, k: int| splits_as_number(s, i, j, k);
        lemma_number_is_scanned(s, i, j, k);
    }
}

/// The characters of `s`, one by one.
pub fn chars_of(s: &str) -> (chars: Vec<char>)
    ensures
        chars@ == s@,
{
    let mut rest = s.chars();
    let mut chars: Vec<char> = Vec::new();
    loop
        invariant
            rest.obeys_prophetic_iter_laws(),
            chars@.len() <= s@.len(),
            rest.remaining() == s@.skip(chars@.len() as int),
            chars@ == s@.take(chars@.len() as int),
        ensures
            chars@ == s@,
        decreases s@.len() - chars@.len(),
    {
        match rest.next() {
            Some(c) => {
                proof {
                    let seen = chars@.len() as int;
                    assert(c == s@[seen]);
                    assert(s@.skip(seen).drop_first() =~= s@.skip(seen + 1));
                    assert(s@.take(seen).push(c) =~= s@.take(seen + 1));
                }
                chars.push(c);
            },
            None => {
                assert(s@.take(chars@.len() as int) =~= s@);
                break ;
            },
        }
    }
    chars
}

/// Skips the digits of `s` from `from` on.
fn scan_digits(s: &Vec<char>, from: usize) -> (end: usize)
    requires
        from <= s@.len(),
    ensures
        end == digits_end(s@, from as int),
        from <= end <= s@.len(),
{
    let mut end: usize = from;
    while end < s.len() && '0' <= s[end] && s[end] <= '9'
        invariant
            from <= end <= s@.len(),
            digits_end(s@, from as int) == digits_end(s@, end as int),
        decreases s@.len() - end,
    {
        end += 1;
    }
    end
}

/// Whether `s` is a JSON number.
pub fn is_number_str(s: &str) -> (number: bool)
    ensures
        number == is_number(s@),
{
    proof {
        lemma_scan_decides(s@);
    }
    let chars = chars_of(s);
    let len: usize = chars.len();
    let start: usize = if len > 0 && chars[0] == '-' { 1 } else { 0 };
    let after_integer: usize = scan_digits(&chars, start);
    if after_integer == start {
        return false;
    }
    if chars[start] == '0' && after_integer > start + 1 {
        return false;
    }
    let mut pos: usize = after_integer;
    if pos < len && chars[pos] == '.' {
        let end: usize = scan_digits(&chars, pos + 1);
        if end == pos + 1 {
            return false;
        }
        pos = end;
    }
    if pos < len && (chars[pos] == 'e' || chars[pos] == 'E') {
        let mut digits: usize = pos + 1;
        if digits < len && (chars[digits] == '+' || chars[digits] == '-') {
            digits += 1;
        }
        let end: usize = scan_digits(&chars, digits);
        if end == digits {
            return false;
        }
        pos = end;
    }
    pos == len
}

/// Whether `s` can stand between quotes as it is.
pub fn is_plain_str(s: &str) -> (plain: bool)
    ensures
        plain == is_plain(s@),
{
    let chars = chars_of(s);
    let mut at: usize = 0;
    while at < chars.len()
        invariant
            at <= chars@.len(),
            chars@ == s@,
            is_plain(chars@.take(at as int)),
        decreases chars@.len() - at,
    {
        let c = chars[at];
        if c == '"' || c == '\\' || !(c >= ' ') {
            return false;
        }
        assert(chars@.take(at + 1) =~= chars@.take(at as int).push(c));
        at += 1;
    }
    assert(chars@.take(at as int) =~= chars@);
    true
}

} // verus!

//! Track numbers written in decimal.

use vstd::prelude::*;

verus! {

/// Whether `c` is one of the ten digits `0` to `9`.
pub open spec fn is_digit(c: char) -> bool {
    '0' <= c && c <= '9'
}

/// The number that the digit `c` stands for.
pub open spec fn digit_value(c: char) -> nat
    recommends
        is_digit(c),
{
    (c as u32 - '0' as u32) as nat
}

/// Whether `s` holds digits only.
pub open spec fn all_digits(s: Seq<char>) -> bool {
    forall|i: int| 0 <= i < s.len() ==> is_digit(#[trigger] s[i])
}

/// The number that the digits of `s` spell in base ten; nothing spells zero.
pub open spec fn decimal_value(s: Seq<char>) -> nat
    decreases s.len(),
{
    if s.len() == 0 {
        0
    } else {
        decimal_value(s.drop_last()) * 10 + digit_value(s.last())
    }
}

/// `s` without the plus sign that may stand in front of it.
pub open spec fn unsigned_part(s: Seq<char>) -> Seq<char> {
    if s.len() > 0 && s[0] == '+' {
        s.skip(1)
    } else {
        s
    }
}

/// The track number that `s` spells: one or more digits, after at most one
/// plus sign, whose value fits in 32 bits. Anything else spells none: no
/// digits, a blank or any other character, a second sign, a number too large.
pub open spec fn track_number(s: Seq<char>) -> Option<u32> {
    let digits = unsigned_part(s);
    if digits.len() > 0 && all_digits(digits) && decimal_value(digits) <= u32::MAX {
        Some(decimal_value(digits) as u32)
    } else {
        None
    }
}

/// More digits never spell a smaller number.
pub proof fn lemma_decimal_value_grows(s: Seq<char>, n: int)
    requires
        0 <= n <= s.len(),
    ensures
        decimal_value(s.take(n)) <= decimal_value(s),
    decreases s.len(),
{
    if n == s.len() {
        assert(s.take(n) == s);
    } else {
        lemma_decimal_value_grows(s.drop_last(), n);
        assert(s.drop_last().take(n) == s.take(n));
    }
}

/// Reads a track number: `Some` with the number where `s` spells one, `None`
/// where it does not.
pub fn parse_track(s: &str) -> (r: Option<u32>)
    ensures
        r == track_number(s@),
{
    let ghost digits = unsigned_part(s@);
    let ghost sign: int = s@.len() - digits.len();
    let mut value: u32 = 0;
    let mut seen: bool = false;
    let mut first: bool = true;
    for c in it: s.chars()
        invariant
            it.seq() == s@,
            digits == unsigned_part(s@),
            sign == s@.len() - digits.len(),
            first == (it.index() == 0),
            seen == (it.index() > sign),
            it.index() >= sign || first,
            !first ==> all_digits(digits.take(it.index() - sign)),
            !first ==> value == decimal_value(digits.take(it.index() - sign)),
            first ==> value == 0,
    {
        if first && c == '+' {
            first = false;
        } else if c >= '0' && c <= '9' {
            let ghost k = it.index() - sign;
            assert(digits.take(k + 1).drop_last() == digits.take(k));
            let d: u32 = c as u32 - '0' as u32;
            if value > (u32::MAX - d) / 10 {
                proof {
                    lemma_decimal_value_grows(digits, k + 1);
                }
                return None;
            }
            assert(decimal_value(digits.take(k + 1)) == decimal_value(digits.take(k)) * 10 + d);
            value = value * 10 + d;
            seen = true;
            first = false;
        } else {
            assert(!is_digit(digits[it.index() - sign]));
            return None;
        }
    }
    proof {
        assert(digits.take(digits.len() as int) == digits);
    }
    if seen {
        Some(value)
    } else {
        None
    }
}

} // verus!

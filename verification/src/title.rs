//! The title-casing transform.
//!
//! A title is built from left to right, one character for each character of
//! the input. A vowel of the accent table first loses its tonos. The character
//! is then lowered if the title so far ends in a letter, a digit or an
//! apostrophe, and raised otherwise, so that every word starts with a capital.
//! What counts is the title built so far, not the input before the character.

use vstd::prelude::*;
use crate::accent::{has_accent, is_accented, strip_accent, unaccented};
use crate::laws::{lemma_settled_source, lemma_title_len, lemma_title_obeys_boundary_rule};
use crate::unicode::{alphanumeric, lowercase, lowercase_of, uppercase, uppercase_of};

verus! {

/// Whether a character that follows `c` continues the word that `c` belongs
/// to: letters, digits and the apostrophe keep a word going.
pub open spec fn joins_word(c: char) -> bool {
    alphanumeric(c) || c == '\''
}

/// The first character of `mapping`, or `c` where `mapping` is empty.
pub open spec fn first_or(mapping: Seq<char>, c: char) -> char {
    if mapping.len() > 0 {
        mapping[0]
    } else {
        c
    }
}

/// The lower-case form of `c` as a single character: the first one of its
/// lower-case mapping.
pub open spec fn lower_form(c: char) -> char {
    first_or(lowercase_of(c), c)
}

/// The upper-case form of `c` as a single character: the first one of its
/// upper-case mapping.
pub open spec fn upper_form(c: char) -> char {
    first_or(uppercase_of(c), c)
}

/// The character that stands for `c` in a title, where `prev` is the
/// character of the title just before it, if there is one.
pub open spec fn title_char(c: char, prev: Option<char>) -> char {
    if prev is Some && joins_word(prev->0) {
        lower_form(unaccented(c))
    } else {
        upper_form(unaccented(c))
    }
}

/// The character of `s` just before position `i`, if there is one.
pub open spec fn char_before(s: Seq<char>, i: int) -> Option<char> {
    if 0 < i <= s.len() {
        Some(s[i - 1])
    } else {
        None
    }
}

/// The title made of `s`: each character in turn is cased by `title_char`
/// against the title built so far.
pub open spec fn title(s: Seq<char>) -> Seq<char>
    decreases s.len(),
{
    if s.len() == 0 {
        Seq::empty()
    } else {
        let head = title(s.drop_last());
        head.push(title_char(s.last(), char_before(head, head.len() as int)))
    }
}

/// The boundary rule: `out` has one character for each character of `src`,
/// and each is what `title_char` makes of the source character when it looks
/// at the character of `out` before it. So the first character is raised, a
/// character after a letter, a digit or an apostrophe is lowered, and a
/// character after anything else is raised.
pub open spec fn obeys_boundary_rule(src: Seq<char>, out: Seq<char>) -> bool {
    &&& out.len() == src.len()
    &&& forall|i: int|
        0 <= i < src.len() ==> out[i] == title_char(#[trigger] src[i], char_before(out, i))
}

/// Whether the case conversion that the boundary rule applies at position `i`
/// of `s` hands back a vowel of the accent table.
pub open spec fn casing_restores_accent(s: Seq<char>, i: int) -> bool {
    is_accented(title_char(s[i], char_before(title(s), i)))
}

/// Whether the case forms of `c` are settled: raised or lowered, the stripped
/// character becomes one that carries no accent of the table and that the
/// same conversion leaves as it is.
pub open spec fn settles(c: char) -> bool {
    let low = lower_form(unaccented(c));
    let up = upper_form(unaccented(c));
    &&& !is_accented(low) && lower_form(low) == low
    &&& !is_accented(up) && upper_form(up) == up
}

/// Whether the next character stands inside a word, from what is known of the
/// character before it: `prev` is that character, if there is one, and
/// `prev_alphanumeric` says whether it is a letter or a digit.
pub fn mid_word(prev: Option<char>, prev_alphanumeric: bool) -> (r: bool)
    ensures
        r == (prev is Some && (prev_alphanumeric || prev->0 == '\'')),
{
    match prev {
        Some(p) => prev_alphanumeric || p == '\'',
        None => false,
    }
}

/// Cuts a case mapping down to one character: the first one of `mapping`, or
/// `c` itself where the mapping holds nothing.
pub fn head_or(mapping: &Vec<char>, c: char) -> (r: char)
    ensures
        r == first_or(mapping@, c),
{
    if mapping.len() > 0 {
        mapping[0]
    } else {
        c
    }
}

/// The character that stands for `ch` in a title whose last character so far
/// is `some_prev`.
pub fn next_char(ch: char, some_prev: Option<char>) -> (r: char)
    ensures
        r == title_char(ch, some_prev),
{
    let this = strip_accent(ch);
    let prev_alphanumeric = match some_prev {
        Some(p) => p.is_alphanumeric(),
        None => false,
    };
    if mid_word(some_prev, prev_alphanumeric) {
        head_or(&lowercase(this), this)
    } else {
        head_or(&uppercase(this), this)
    }
}

/// Tells whether the case forms of `c` are settled.
pub fn is_settled(c: char) -> (r: bool)
    ensures
        r == settles(c),
{
    let plain = strip_accent(c);
    let low = head_or(&lowercase(plain), plain);
    let up = head_or(&uppercase(plain), plain);
    let low_again = head_or(&lowercase(low), low);
    let up_again = head_or(&uppercase(up), up);
    !has_accent(low) && low_again == low && !has_accent(up) && up_again == up
}

/// Tells whether the case forms of every character of `a` are settled. Where
/// they are, the title of `a` holds no vowel of the accent table and is its
/// own title.
pub fn all_settled(a: &str) -> (r: bool)
    ensures
        r == (forall|i: int| 0 <= i < a@.len() ==> settles(#[trigger] a@[i])),
        r ==> title(title(a@)) == title(a@),
        r ==> forall|i: int| 0 <= i < a@.len() ==> !is_accented(#[trigger] title(a@)[i]),
{
    for ch in it: a.chars()
        invariant
            it.seq() == a@,
            forall|i: int| 0 <= i < it.index() ==> settles(#[trigger] a@[i]),
    {
        if !is_settled(ch) {
            return false;
        }
    }
    proof {
        lemma_settled_source(a@);
    }
    true
}

/// Formats a raw fragment as a title.
///
/// The result has one character for each character of `a`. Each is the source
/// character without its tonos, raised at the start of the fragment and after
/// anything but a letter, a digit or an apostrophe, and lowered elsewhere; the
/// character before it is looked up in the result, not in `a`. A vowel of the
/// accent table stands in the result only where raising or lowering a plain
/// character hands one back.
pub fn format_to_title(a: &str) -> (b: String)
    ensures
        b@ == title(a@),
        b@.len() == a@.len(),
        obeys_boundary_rule(a@, b@),
        forall|i: int|
            0 <= i < a@.len() && is_accented(#[trigger] b@[i]) ==> casing_restores_accent(a@, i),
{
    let mut b = String::new();
    let mut prev: Option<char> = None;
    for ch in it: a.chars()
        invariant
            it.seq() == a@,
            b@ == title(a@.take(it.index())),
            prev == char_before(b@, b@.len() as int),
    {
        let t = next_char(ch, prev);
        proof {
            assert(a@.take(it.index() + 1).drop_last() == a@.take(it.index()));
        }
        b.push(t);
        prev = Some(t);
    }
    proof {
        assert(a@.take(a@.len() as int) == a@);
        lemma_title_len(a@);
        lemma_title_obeys_boundary_rule(a@);
    }
    b
}

} // verus!

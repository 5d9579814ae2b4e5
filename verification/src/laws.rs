//! What holds of every title, of every track number and of every update,
//! proved over the models of the functions.

use vstd::prelude::*;
use crate::accent::{is_accented, unaccented};
use crate::fields::{no_field, FieldsView};
use crate::file_name::{decimal_digits, two_digits};
use crate::number::{all_digits, decimal_value, track_number};
use crate::title::{
    casing_restores_accent, char_before, lower_form, obeys_boundary_rule, settles, title,
    title_char, upper_form,
};
use crate::update::{changes_of, written};
use crate::wanted::WantedView;

verus! {

/// A title has as many characters as its source.
pub proof fn lemma_title_len(s: Seq<char>)
    ensures
        title(s).len() == s.len(),
    decreases s.len(),
{
    if s.len() > 0 {
        lemma_title_len(s.drop_last());
    }
}

/// The title of a prefix is the prefix of the title: what comes later in the
/// source changes nothing of what was built before.
pub proof fn lemma_title_prefix(s: Seq<char>, n: int)
    requires
        0 <= n <= s.len(),
    ensures
        title(s.take(n)) == title(s).take(n),
    decreases s.len(),
{
    lemma_title_len(s);
    if n == s.len() {
        assert(s.take(n) == s);
    } else {
        let front = s.drop_last();
        lemma_title_len(front);
        lemma_title_prefix(front, n);
        assert(front.take(n) == s.take(n));
    }
}

/// Every title obeys the boundary rule over its source.
pub proof fn lemma_title_obeys_boundary_rule(s: Seq<char>)
    ensures
        obeys_boundary_rule(s, title(s)),
    decreases s.len(),
{
    lemma_title_len(s);
    if s.len() > 0 {
        let front = s.drop_last();
        lemma_title_len(front);
        lemma_title_obeys_boundary_rule(front);
        assert forall|i: int| 0 <= i < s.len() implies title(s)[i] == title_char(
            #[trigger] s[i],
            char_before(title(s), i),
        ) by {
            if i < s.len() - 1 {
                assert(front[i] == s[i]);
            }
        }
    }
}

/// The boundary rule leaves no choice: the one sequence that obeys it over
/// `src` is the title of `src`.
pub proof fn lemma_boundary_rule_decides(src: Seq<char>, out: Seq<char>)
    requires
        obeys_boundary_rule(src, out),
    ensures
        out == title(src),
    decreases src.len(),
{
    if src.len() > 0 {
        let front = src.drop_last();
        let head = out.drop_last();
        assert forall|i: int| 0 <= i < front.len() implies head[i] == title_char(
            #[trigger] front[i],
            char_before(head, i),
        ) by {
            assert(front[i] == src[i]);
        }
        lemma_boundary_rule_decides(front, head);
        assert(out == head.push(out.last()));
    }
}

/// A sequence is its own title exactly when it obeys the boundary rule over
/// itself, that is when casing any of its characters again gives that
/// character back.
pub proof fn lemma_own_title(t: Seq<char>)
    ensures
        title(t) == t <==> obeys_boundary_rule(t, t),
{
    lemma_title_obeys_boundary_rule(t);
    if obeys_boundary_rule(t, t) {
        lemma_boundary_rule_decides(t, t);
    }
}

/// Making a title of a title changes nothing, provided that the title obeys
/// the boundary rule over itself; by `lemma_own_title` nothing less will do.
/// The proviso can fail: where the upper-case form of a plain character is a
/// vowel of the accent table, as it is for the small alpha with oxia and
/// ypogegrammeni, the first pass puts that vowel into the title and the second
/// pass strips it.
pub proof fn lemma_title_idempotent(s: Seq<char>)
    requires
        obeys_boundary_rule(title(s), title(s)),
    ensures
        title(title(s)) == title(s),
{
    lemma_own_title(title(s));
}

/// Stripping leaves no vowel of the accent table, and stripping twice is
/// stripping once.
pub proof fn lemma_unaccented_is_plain(c: char)
    ensures
        !is_accented(unaccented(c)),
        unaccented(unaccented(c)) == unaccented(c),
        !is_accented(c) ==> unaccented(c) == c,
{
}

/// Every character of a title is a case form of a character without an accent
/// of the table, whatever its position: the accent is stripped before the
/// case is chosen.
pub proof fn lemma_title_chars_are_case_forms(s: Seq<char>)
    ensures
        forall|i: int|
            0 <= i < s.len() ==> {
                let plain = unaccented(#[trigger] s[i]);
                &&& !is_accented(plain)
                &&& title(s)[i] == lower_form(plain) || title(s)[i] == upper_form(plain)
            },
{
    lemma_title_obeys_boundary_rule(s);
}

/// A title holds no vowel of the accent table, provided that no case
/// conversion hands one back at the position where the boundary rule applies
/// it. Stripping alone does not see to that: the upper-case form of the small
/// alpha with oxia and ypogegrammeni, which is not in the table, is the
/// capital alpha with tonos, which is.
pub proof fn lemma_accent_elimination(s: Seq<char>)
    requires
        forall|i: int| 0 <= i < s.len() ==> !#[trigger] casing_restores_accent(s, i),
    ensures
        forall|i: int| 0 <= i < s.len() ==> !is_accented(#[trigger] title(s)[i]),
{
    lemma_title_obeys_boundary_rule(s);
    assert forall|i: int| 0 <= i < s.len() implies !is_accented(#[trigger] title(s)[i]) by {
        assert(!casing_restores_accent(s, i));
    }
}

/// A test on the source alone: where the case forms of every character of
/// `s` are settled, the title of `s` holds no vowel of the accent table and is
/// its own title.
pub proof fn lemma_settled_source(s: Seq<char>)
    requires
        forall|i: int| 0 <= i < s.len() ==> settles(#[trigger] s[i]),
    ensures
        forall|i: int| 0 <= i < s.len() ==> !is_accented(#[trigger] title(s)[i]),
        title(title(s)) == title(s),
{
    let t = title(s);
    lemma_title_obeys_boundary_rule(s);
    assert forall|i: int| 0 <= i < s.len() implies !is_accented(#[trigger] t[i]) && t[i]
        == title_char(t[i], char_before(t, i)) by {
        assert(settles(s[i]));
    }
    lemma_own_title(t);
}

/// The digits that spell `n` are digits, and spell `n`.
pub proof fn lemma_decimal_digits_spell(n: nat)
    ensures
        decimal_digits(n).len() > 0,
        all_digits(decimal_digits(n)),
        decimal_value(decimal_digits(n)) == n,
    decreases n,
{
    if n < 10 {
        assert(decimal_value(decimal_digits(n).drop_last()) == 0);
    } else {
        lemma_decimal_digits_spell(n / 10);
        assert(decimal_digits(n).drop_last() == decimal_digits(n / 10));
    }
}

/// A track number written into a file name reads back as the same number.
pub proof fn lemma_track_reads_back(n: u32)
    ensures
        track_number(two_digits(n as nat)) == Some(n),
{
    let s = two_digits(n as nat);
    lemma_decimal_digits_spell(n as nat);
    if n < 10 {
        assert(decimal_value(s.drop_last()) == 0) by {
            reveal_with_fuel(decimal_value, 2);
        }
    }
}

/// Unless writing is forced, nothing is due any more once what was due is
/// laid over the fields: a second run over a tag that gives back what was
/// written into it leaves that tag alone.
pub proof fn lemma_changes_settle(want: WantedView, have: FieldsView)
    ensures
        no_field(changes_of(want, written(have, changes_of(want, have, false)), false)),
{
}

/// What is written is what was wanted: with the changes laid over them, the
/// fields that the user asks for hold the wanted values, and every other
/// field holds what it held before.
pub proof fn lemma_changes_reach_wanted(want: WantedView, have: FieldsView, force: bool)
    ensures
        ({
            let after = written(have, changes_of(want, have, force));
            &&& after.year == if want.year is Some { want.year } else { have.year }
            &&& after.artist == if want.artist is Some { want.artist } else { have.artist }
            &&& after.album_artist == if want.artist is Some {
                want.artist
            } else {
                have.album_artist
            }
            &&& after.album == if want.album is Some { want.album } else { have.album }
            &&& after.genre == if want.genre is Some { want.genre } else { have.genre }
            &&& after.track == if want.track is Some { want.track } else { have.track }
            &&& after.title == if want.title is Some { want.title } else { have.title }
        }),
{
}

} // verus!

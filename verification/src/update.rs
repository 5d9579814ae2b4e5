//! The rule by which a wanted value is written into a tag.

use vstd::prelude::*;
use crate::fields::{no_field, Fields, FieldsView};
use crate::wanted::{Wanted, WantedView};

verus! {

/// The value to write into one field: the wanted one, where there is one and
/// the tag holds none or another, or where there is one and writing is
/// forced; nothing otherwise.
pub open spec fn due<T>(want: Option<T>, have: Option<T>, force: bool) -> Option<T> {
    if want is Some && (force || have != want) {
        want
    } else {
        None
    }
}

/// What is to be written into a tag that holds `have` for it to hold `want`:
/// field by field what `due` says, the wanted artist in both artist fields.
pub open spec fn changes_of(want: WantedView, have: FieldsView, force: bool) -> FieldsView {
    FieldsView {
        year: due(want.year, have.year, force),
        artist: due(want.artist, have.artist, force),
        album_artist: due(want.artist, have.album_artist, force),
        album: due(want.album, have.album, force),
        genre: due(want.genre, have.genre, force),
        track: due(want.track, have.track, force),
        title: due(want.title, have.title, force),
    }
}

/// `have` with `set` laid over it: the value of `set` in each field that
/// `set` has one for, the value of `have` in the others. This is what a tag
/// holds after the changes, as long as it gives back what was written into
/// it.
pub open spec fn written(have: FieldsView, set: FieldsView) -> FieldsView {
    FieldsView {
        year: if set.year is Some { set.year } else { have.year },
        artist: if set.artist is Some { set.artist } else { have.artist },
        album_artist: if set.album_artist is Some { set.album_artist } else { have.album_artist },
        album: if set.album is Some { set.album } else { have.album },
        genre: if set.genre is Some { set.genre } else { have.genre },
        track: if set.track is Some { set.track } else { have.track },
        title: if set.title is Some { set.title } else { have.title },
    }
}

/// The year to write, by the rule of `due`.
pub fn due_year(want: Option<i32>, have: Option<i32>, force: bool) -> (r: Option<i32>)
    ensures
        r == due(want, have, force),
{
    match (want, have) {
        (Some(w), Some(h)) => if !force && w == h {
            None
        } else {
            Some(w)
        },
        (Some(w), None) => Some(w),
        (None, _) => None,
    }
}

/// The track number to write, by the rule of `due`.
pub fn due_track(want: Option<u32>, have: Option<u32>, force: bool) -> (r: Option<u32>)
    ensures
        r == due(want, have, force),
{
    match (want, have) {
        (Some(w), Some(h)) => if !force && w == h {
            None
        } else {
            Some(w)
        },
        (Some(w), None) => Some(w),
        (None, _) => None,
    }
}

/// The text to write, by the rule of `due`.
pub fn due_text(want: &Option<String>, have: &Option<String>, force: bool) -> (r: Option<String>)
    ensures
        r.deep_view() == due(want.deep_view(), have.deep_view(), force),
{
    match (want, have) {
        (Some(w), Some(h)) => if !force && *w == *h {
            None
        } else {
            Some(w.clone())
        },
        (Some(w), None) => Some(w.clone()),
        (None, _) => None,
    }
}

/// Decides what to write into a tag that holds `have` when the user wants
/// `want`.
pub fn changes(want: &Wanted, have: &Fields, force: bool) -> (set: Fields)
    ensures
        set@ == changes_of(want@, have@, force),
{
    Fields {
        year: due_year(want.year, have.year, force),
        artist: due_text(&want.artist, &have.artist, force),
        album_artist: due_text(&want.artist, &have.album_artist, force),
        album: due_text(&want.album, &have.album, force),
        genre: due_text(&want.genre, &have.genre, force),
        track: due_track(want.track, have.track, force),
        title: due_text(&want.title, &have.title, force),
    }
}

/// Whether the cover is to be replaced: one is wanted, and the tag does not
/// hold that very picture already or writing is forced.
pub fn replaces_cover(wanted: bool, present: bool, force: bool) -> (r: bool)
    ensures
        r == (wanted && (force || !present)),
{
    wanted && (force || !present)
}

/// Whether the tag has to be written back: it was cleared, or a field or the
/// cover changes.
pub fn must_write(clear: bool, set: &Fields, cover: bool) -> (r: bool)
    ensures
        r == (clear || !no_field(set@) || cover),
{
    clear || !set.is_empty() || cover
}

} // verus!

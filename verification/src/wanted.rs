//! The values that the user asks for, and where the track number and the
//! title come from.

use vstd::prelude::*;
use crate::number::{parse_track, track_number};
use crate::pattern::{capture, captured};
use crate::title::{format_to_title, title};

verus! {

/// The values that the user asks for. The artist goes to two fields of the
/// tag, the artist of the song and the artist of the album.
#[derive(Debug, PartialEq, Eq)]
pub struct Wanted {
    pub year: Option<i32>,
    pub artist: Option<String>,
    pub album: Option<String>,
    pub genre: Option<String>,
    pub track: Option<u32>,
    pub title: Option<String>,
}

/// `Wanted` with each text as a sequence of characters.
pub struct WantedView {
    pub year: Option<i32>,
    pub artist: Option<Seq<char>>,
    pub album: Option<Seq<char>>,
    pub genre: Option<Seq<char>>,
    pub track: Option<u32>,
    pub title: Option<Seq<char>>,
}

impl View for Wanted {
    type V = WantedView;

    open spec fn view(&self) -> WantedView {
        WantedView {
            year: self.year,
            artist: self.artist.deep_view(),
            album: self.album.deep_view(),
            genre: self.genre.deep_view(),
            track: self.track,
            title: self.title.deep_view(),
        }
    }
}

/// A pattern that the `regex` crate refused, with the error that it gave.
#[derive(Debug)]
pub struct BadPattern {
    pub cause: regex::Error,
}

/// The track number chosen for a file, and the position that the next file
/// takes among those numbered by counting.
#[derive(Debug, Clone, Copy, PartialEq, Eq)]
pub struct TrackChoice {
    pub track: Option<u32>,
    pub next_index: u32,
}

/// The track number of the file at position `index` among those numbered by
/// counting, and the position of the next one: `None` where the pattern is
/// refused. A number given outright wins; else a start to count from gives
/// start plus `index`, and the position moves on; else a pattern gives what
/// its group `track` matches in `basename`, read as a number, and no number
/// where it matches nothing or what it matches spells none; else there is no
/// number.
pub open spec fn track_choice_of(
    given: Option<u32>,
    start: Option<u32>,
    index: u32,
    pattern: Option<Seq<char>>,
    basename: Seq<char>,
) -> Option<TrackChoice> {
    if given is Some {
        Some(TrackChoice { track: given, next_index: index })
    } else if start is Some {
        Some(TrackChoice { track: Some((start->0 + index) as u32), next_index: (index + 1) as u32 })
    } else if pattern is Some {
        match captured(pattern->0, "track"@, basename) {
            Some(Some(text)) => Some(TrackChoice { track: track_number(text), next_index: index }),
            Some(None) => Some(TrackChoice { track: None, next_index: index }),
            None => None,
        }
    } else {
        Some(TrackChoice { track: None, next_index: index })
    }
}

/// The title of a file: `None` where the pattern is refused. A title given
/// outright wins, as it is; else a pattern gives what its group `title`
/// matches in `basename`, formatted as a title, and no title where it matches
/// nothing; else there is no title.
pub open spec fn title_choice_of(
    given: Option<Seq<char>>,
    pattern: Option<Seq<char>>,
    basename: Seq<char>,
) -> Option<Option<Seq<char>>> {
    if given is Some {
        Some(given)
    } else if pattern is Some {
        match captured(pattern->0, "title"@, basename) {
            Some(Some(text)) => Some(Some(title(text))),
            Some(None) => Some(None),
            None => None,
        }
    } else {
        Some(None)
    }
}

/// Chooses the track number of one file, as `track_choice_of` says, and fails
/// where the pattern had to be consulted and is refused.
///
/// Where the number is counted, `start + index` and `index + 1` must fit in
/// 32 bits.
pub fn wanted_track(
    given: Option<u32>,
    start: Option<u32>,
    index: u32,
    pattern: Option<&str>,
    basename: &str,
) -> (r: Result<TrackChoice, BadPattern>)
    requires
        given is None && start is Some ==> start->0 + index <= u32::MAX && index < u32::MAX,
    ensures
        match track_choice_of(given, start, index, pattern.deep_view(), basename@) {
            Some(choice) => r == Ok::<TrackChoice, BadPattern>(choice),
            None => r is Err,
        },
{
    if let Some(track) = given {
        Ok(TrackChoice { track: Some(track), next_index: index })
    } else if let Some(track) = start {
        Ok(TrackChoice { track: Some(track + index), next_index: index + 1 })
    } else if let Some(p) = pattern {
        match capture(p, "track", basename) {
            Ok(Some(text)) => Ok(TrackChoice { track: parse_track(text.as_str()), next_index: index }),
            Ok(None) => Ok(TrackChoice { track: None, next_index: index }),
            Err(cause) => Err(BadPattern { cause }),
        }
    } else {
        Ok(TrackChoice { track: None, next_index: index })
    }
}

/// Chooses the title of one file, as `title_choice_of` says, and fails where
/// the pattern had to be consulted and is refused.
pub fn wanted_title(given: Option<&str>, pattern: Option<&str>, basename: &str) -> (r: Result<
    Option<String>,
    BadPattern,
>)
    ensures
        match title_choice_of(given.deep_view(), pattern.deep_view(), basename@) {
            Some(choice) => r matches Ok(t) && t.deep_view() == choice,
            None => r is Err,
        },
{
    if let Some(t) = given {
        Ok(Some(t.to_owned()))
    } else if let Some(p) = pattern {
        match capture(p, "title", basename) {
            Ok(Some(text)) => Ok(Some(format_to_title(text.as_str()))),
            Ok(None) => Ok(None),
            Err(cause) => Err(BadPattern { cause }),
        }
    } else {
        Ok(None)
    }
}

} // verus!

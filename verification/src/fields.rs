//! The fields of a tag that can be set.

use vstd::prelude::*;

verus! {

/// One value for each field that can be set. Read from a tag, it says what
/// the tag holds; as the outcome of a decision, it says what is to be written,
/// with `None` for a field that stays as it is.
#[derive(Debug, PartialEq, Eq)]
pub struct Fields {
    pub year: Option<i32>,
    pub artist: Option<String>,
    pub album_artist: Option<String>,
    pub album: Option<String>,
    pub genre: Option<String>,
    pub track: Option<u32>,
    pub title: Option<String>,
}

/// `Fields` with each text as a sequence of characters.
pub struct FieldsView {
    pub year: Option<i32>,
    pub artist: Option<Seq<char>>,
    pub album_artist: Option<Seq<char>>,
    pub album: Option<Seq<char>>,
    pub genre: Option<Seq<char>>,
    pub track: Option<u32>,
    pub title: Option<Seq<char>>,
}

impl View for Fields {
    type V = FieldsView;

    open spec fn view(&self) -> FieldsView {
        FieldsView {
            year: self.year,
            artist: self.artist.deep_view(),
            album_artist: self.album_artist.deep_view(),
            album: self.album.deep_view(),
            genre: self.genre.deep_view(),
            track: self.track,
            title: self.title.deep_view(),
        }
    }
}

/// Whether `f` holds no value at all.
pub open spec fn no_field(f: FieldsView) -> bool {
    &&& f.year is None
    &&& f.artist is None
    &&& f.album_artist is None
    &&& f.album is None
    &&& f.genre is None
    &&& f.track is None
    &&& f.title is None
}

impl Fields {
    /// Whether no field holds a value.
    pub fn is_empty(&self) -> (r: bool)
        ensures
            r == no_field(self@),
    {
        self.year.is_none() && self.artist.is_none() && self.album_artist.is_none()
            && self.album.is_none() && self.genre.is_none() && self.track.is_none()
            && self.title.is_none()
    }
}

} // verus!

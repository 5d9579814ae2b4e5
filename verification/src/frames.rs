//! The frames of a tag that a listing shows in columns of their own.

use vstd::prelude::*;
use crate::text::same_text;

verus! {

/// Whether `id` names one of the eight frames that have a column: the cover,
/// the two artists, the title, the genre, the year, the album and the track.
pub open spec fn is_shown(id: Seq<char>) -> bool {
    ||| id == "APIC"@
    ||| id == "TPE1"@
    ||| id == "TPE2"@
    ||| id == "TIT2"@
    ||| id == "TCON"@
    ||| id == "TYER"@
    ||| id == "TALB"@
    ||| id == "TRCK"@
}

/// Whether the frame `id` has a column of its own, so that a listing need not
/// name it among the other frames.
pub fn has_column(id: &str) -> (r: bool)
    ensures
        r == is_shown(id@),
{
    same_text(id, "APIC") || same_text(id, "TPE1") || same_text(id, "TPE2")
        || same_text(id, "TIT2") || same_text(id, "TCON") || same_text(id, "TYER")
        || same_text(id, "TALB") || same_text(id, "TRCK")
}

} // verus!

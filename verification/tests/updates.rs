use takis::fields::Fields;
use takis::update::{changes, due_text, due_track, due_year, must_write, replaces_cover};
use takis::wanted::Wanted;

fn text(s: &str) -> Option<String> {
    Some(s.to_string())
}

fn nothing() -> Fields {
    Fields {
        year: None,
        artist: None,
        album_artist: None,
        album: None,
        genre: None,
        track: None,
        title: None,
    }
}

fn wanted_all() -> Wanted {
    Wanted {
        year: Some(1999),
        artist: text("Someone"),
        album: text("Something"),
        genre: text("Rock"),
        track: Some(3),
        title: text("The End"),
    }
}

fn all_written() -> Fields {
    Fields {
        year: Some(1999),
        artist: text("Someone"),
        album_artist: text("Someone"),
        album: text("Something"),
        genre: text("Rock"),
        track: Some(3),
        title: text("The End"),
    }
}

#[test]
fn nothing_wanted_nothing_due() {
    for force in [false, true] {
        assert_eq!(due_year(None, None, force), None);
        assert_eq!(due_year(None, Some(1999), force), None);
        assert_eq!(due_track(None, None, force), None);
        assert_eq!(due_track(None, Some(3), force), None);
        assert_eq!(due_text(&None, &None, force), None);
        assert_eq!(due_text(&None, &text("x"), force), None);
    }
}

#[test]
fn wanted_value_is_due_where_the_tag_holds_none() {
    for force in [false, true] {
        assert_eq!(due_year(Some(1999), None, force), Some(1999));
        assert_eq!(due_track(Some(3), None, force), Some(3));
        assert_eq!(due_text(&text("x"), &None, force), text("x"));
    }
}

#[test]
fn wanted_value_is_due_where_the_tag_holds_another() {
    for force in [false, true] {
        assert_eq!(due_year(Some(1999), Some(2000), force), Some(1999));
        assert_eq!(due_year(Some(-1), Some(1), force), Some(-1));
        assert_eq!(due_track(Some(3), Some(4), force), Some(3));
        assert_eq!(due_text(&text("x"), &text("y"), force), text("x"));
        assert_eq!(due_text(&text("x"), &text("X"), force), text("x"));
        assert_eq!(due_text(&text(""), &text("x"), force), text(""));
        assert_eq!(due_text(&text("x"), &text("xy"), force), text("x"));
        assert_eq!(due_text(&text("xy"), &text("x"), force), text("xy"));
    }
}

#[test]
fn same_value_is_due_only_when_forced() {
    assert_eq!(due_year(Some(1999), Some(1999), false), None);
    assert_eq!(due_year(Some(1999), Some(1999), true), Some(1999));
    assert_eq!(due_track(Some(3), Some(3), false), None);
    assert_eq!(due_track(Some(3), Some(3), true), Some(3));
    assert_eq!(due_text(&text("x"), &text("x"), false), None);
    assert_eq!(due_text(&text("x"), &text("x"), true), text("x"));
    assert_eq!(due_text(&text(""), &text(""), false), None);
}

#[test]
fn empty_fields_are_empty() {
    assert!(nothing().is_empty());
}

#[test]
fn any_value_makes_fields_non_empty() {
    assert!(!Fields { year: Some(1), ..nothing() }.is_empty());
    assert!(!Fields { artist: text("a"), ..nothing() }.is_empty());
    assert!(!Fields { album_artist: text("a"), ..nothing() }.is_empty());
    assert!(!Fields { album: text("a"), ..nothing() }.is_empty());
    assert!(!Fields { genre: text("a"), ..nothing() }.is_empty());
    assert!(!Fields { track: Some(1), ..nothing() }.is_empty());
    assert!(!Fields { title: text(""), ..nothing() }.is_empty());
}

#[test]
fn everything_is_written_into_an_empty_tag() {
    assert_eq!(changes(&wanted_all(), &nothing(), false), all_written());
    assert_eq!(changes(&wanted_all(), &nothing(), true), all_written());
}

#[test]
fn nothing_is_written_into_a_tag_that_holds_it_all() {
    assert_eq!(changes(&wanted_all(), &all_written(), false), nothing());
}

#[test]
fn only_what_differs_is_written() {
    let have = Fields {
        year: Some(1999),
        artist: text("Someone"),
        album_artist: text("Someone Else"),
        album: None,
        genre: text("Pop"),
        track: Some(3),
        title: text("the end"),
    };
    let due = Fields {
        album_artist: text("Someone"),
        album: text("Something"),
        genre: text("Rock"),
        title: text("The End"),
        ..nothing()
    };
    assert_eq!(changes(&wanted_all(), &have, false), due);
}

#[test]
fn what_is_not_wanted_is_left_alone() {
    let want = Wanted { year: None, artist: None, album: None, genre: None, track: None, title: None };
    let have = Fields {
        year: Some(1999),
        artist: text("Someone"),
        album_artist: None,
        album: text("Something"),
        genre: None,
        track: Some(3),
        title: text("The End"),
    };
    assert_eq!(changes(&want, &have, false), nothing());
    assert_eq!(changes(&want, &have, true), nothing());
}

#[test]
fn writing_what_is_due_leaves_nothing_due() {
    let have = Fields {
        year: Some(2000),
        artist: None,
        album_artist: text("Someone Else"),
        album: text("Something"),
        genre: None,
        track: Some(4),
        title: None,
    };
    let set = changes(&wanted_all(), &have, false);
    let after = Fields {
        year: set.year.or(have.year),
        artist: set.artist.or(have.artist),
        album_artist: set.album_artist.or(have.album_artist),
        album: set.album.or(have.album),
        genre: set.genre.or(have.genre),
        track: set.track.or(have.track),
        title: set.title.or(have.title),
    };
    assert_eq!(after, all_written());
    assert_eq!(changes(&wanted_all(), &after, false), nothing());
}

#[test]
fn everything_wanted_is_written_again_when_forced() {
    assert_eq!(changes(&wanted_all(), &all_written(), true), all_written());
}

#[test]
fn cover_is_replaced_when_wanted_and_missing_or_forced() {
    assert!(replaces_cover(true, false, false));
    assert!(replaces_cover(true, false, true));
    assert!(replaces_cover(true, true, true));
    assert!(!replaces_cover(true, true, false));
}

#[test]
fn cover_is_left_when_none_is_wanted() {
    for present in [false, true] {
        for force in [false, true] {
            assert!(!replaces_cover(false, present, force));
        }
    }
}

#[test]
fn tag_is_written_when_cleared_or_changed() {
    let year = Fields { year: Some(1), ..nothing() };
    assert!(!must_write(false, &nothing(), false));
    assert!(must_write(true, &nothing(), false));
    assert!(must_write(false, &year, false));
    assert!(must_write(false, &nothing(), true));
    assert!(must_write(true, &year, true));
}

use takis::file_name::{new_name, song_file_name};

#[test]
fn track_number_takes_two_digits_at_least() {
    assert_eq!(song_file_name("The End", Some(0)), "00 - The End.mp3");
    assert_eq!(song_file_name("The End", Some(5)), "05 - The End.mp3");
    assert_eq!(song_file_name("The End", Some(9)), "09 - The End.mp3");
    assert_eq!(song_file_name("The End", Some(10)), "10 - The End.mp3");
    assert_eq!(song_file_name("The End", Some(99)), "99 - The End.mp3");
    assert_eq!(song_file_name("The End", Some(100)), "100 - The End.mp3");
    assert_eq!(song_file_name("The End", Some(u32::MAX)), "4294967295 - The End.mp3");
}

#[test]
fn file_name_without_a_track_is_the_title() {
    assert_eq!(song_file_name("The End", None), "The End.mp3");
    assert_eq!(song_file_name("", None), ".mp3");
    assert_eq!(song_file_name("Η Βαθρα Του Φονια", None), "Η Βαθρα Του Φονια.mp3");
}

#[test]
fn file_name_of_an_empty_title() {
    assert_eq!(song_file_name("", Some(3)), "03 - .mp3");
}

#[test]
fn file_name_reads_as_the_format_does() {
    for track in [0u32, 1, 9, 10, 11, 42, 99, 100, 101, 999, 1000, 65535, 1_000_000, u32::MAX] {
        for title in ["", "a", "Don't Stop", "Καλημερα"] {
            assert_eq!(song_file_name(title, Some(track)), format!("{track:02} - {title}.mp3"));
            assert_eq!(song_file_name(title, None), format!("{title}.mp3"));
        }
    }
}

#[test]
fn no_new_name_without_renaming() {
    assert_eq!(new_name(false, Some("The End"), Some(1)), None);
    assert_eq!(new_name(false, Some("The End"), None), None);
    assert_eq!(new_name(false, None, Some(1)), None);
    assert_eq!(new_name(false, None, None), None);
}

#[test]
fn no_new_name_without_a_title() {
    assert_eq!(new_name(true, None, Some(1)), None);
    assert_eq!(new_name(true, None, None), None);
}

#[test]
fn new_name_from_title_and_track() {
    assert_eq!(new_name(true, Some("The End"), Some(1)), Some("01 - The End.mp3".to_string()));
    assert_eq!(new_name(true, Some("The End"), Some(123)), Some("123 - The End.mp3".to_string()));
    assert_eq!(new_name(true, Some("The End"), None), Some("The End.mp3".to_string()));
}

//! The name that a song file takes after its tag.

use vstd::prelude::*;
use vstd::string::StringExecFns;

verus! {

/// The character that stands for the digit `d`.
pub open spec fn digit_char(d: nat) -> char
    recommends
        d < 10,
{
    ('0' as u32 + d) as char
}

/// `n` written in base ten, with no more digits than it needs.
pub open spec fn decimal_digits(n: nat) -> Seq<char>
    decreases n,
{
    if n < 10 {
        seq![digit_char(n)]
    } else {
        decimal_digits(n / 10).push(digit_char(n % 10))
    }
}

/// `n` written in base ten with two digits at least: a number below ten gets
/// a zero in front.
pub open spec fn two_digits(n: nat) -> Seq<char> {
    if n < 10 {
        seq!['0', digit_char(n)]
    } else {
        decimal_digits(n)
    }
}

/// The file name of a song: the track number, if there is one, in two digits
/// or more and followed by ` - `, then the title, then `.mp3`.
pub open spec fn file_name_of(title: Seq<char>, track: Option<u32>) -> Seq<char> {
    let front = match track {
        Some(n) => two_digits(n as nat) + seq![' ', '-', ' '],
        None => Seq::empty(),
    };
    front + title + seq!['.', 'm', 'p', '3']
}

/// The name that a file is to take: the file name of the song where renaming
/// is asked for and the tag has a title, none where the file keeps its name.
pub open spec fn new_name_of(rename: bool, title: Option<Seq<char>>, track: Option<u32>) -> Option<
    Seq<char>,
> {
    if rename && title is Some {
        Some(file_name_of(title->0, track))
    } else {
        None
    }
}

/// The character for a digit below ten.
fn digit_of(d: u32) -> (c: char)
    requires
        d < 10,
    ensures
        c == digit_char(d as nat),
{
    (48u8 + d as u8) as char
}

/// Appends `n` in base ten to `out`.
fn push_decimal(out: &mut String, n: u32)
    ensures
        final(out)@ == old(out)@ + decimal_digits(n as nat),
    decreases n,
{
    if n >= 10 {
        push_decimal(out, n / 10);
    }
    out.push(digit_of(n % 10));
}

/// Makes the file name of a song out of its title and track number.
pub fn song_file_name(title: &str, track: Option<u32>) -> (name: String)
    ensures
        name@ == file_name_of(title@, track),
{
    let mut name = String::new();
    match track {
        Some(n) => {
            if n < 10 {
                name.push('0');
            }
            push_decimal(&mut name, n);
            name.push(' ');
            name.push('-');
            name.push(' ');
        },
        None => {},
    }
    name.append(title);
    name.push('.');
    name.push('m');
    name.push('p');
    name.push('3');
    name
}

/// Decides the name that a file takes once its tag is written: `Some` with the
/// song's file name where `rename` is set and the tag has a title, `None`
/// where the file keeps the name it has.
pub fn new_name(rename: bool, title: Option<&str>, track: Option<u32>) -> (r: Option<String>)
    ensures
        r.deep_view() == new_name_of(rename, title.deep_view(), track),
{
    match title {
        Some(t) => if rename {
            Some(song_file_name(t, track))
        } else {
            None
        },
        None => None,
    }
}

} // verus!

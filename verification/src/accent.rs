//! The table of Greek vowels that carry a tonos, and their plain counterparts.

use vstd::prelude::*;

verus! {

/// Whether `c` is one of the fourteen vowels of the table: the seven Greek
/// vowels with a tonos, in lower and in upper case.
pub open spec fn is_accented(c: char) -> bool {
    ||| c == 'ά' || c == 'έ' || c == 'ή' || c == 'ί' || c == 'ό' || c == 'ύ' || c == 'ώ'
    ||| c == 'Ά' || c == 'Έ' || c == 'Ή' || c == 'Ί' || c == 'Ό' || c == 'Ύ' || c == 'Ώ'
}

/// The vowel `c` without its tonos; any character outside the table is
/// itself.
pub open spec fn unaccented(c: char) -> char {
    if c == 'ά' {
        'α'
    } else if c == 'έ' {
        'ε'
    } else if c == 'ή' {
        'η'
    } else if c == 'ί' {
        'ι'
    } else if c == 'ό' {
        'ο'
    } else if c == 'ύ' {
        'υ'
    } else if c == 'ώ' {
        'ω'
    } else if c == 'Ά' {
        'Α'
    } else if c == 'Έ' {
        'Ε'
    } else if c == 'Ή' {
        'Η'
    } else if c == 'Ί' {
        'Ι'
    } else if c == 'Ό' {
        'Ο'
    } else if c == 'Ύ' {
        'Υ'
    } else if c == 'Ώ' {
        'Ω'
    } else {
        c
    }
}

/// Tells whether `c` is a vowel of the table.
pub fn has_accent(c: char) -> (r: bool)
    ensures
        r == is_accented(c),
{
    match c {
        'ά' | 'έ' | 'ή' | 'ί' | 'ό' | 'ύ' | 'ώ' => true,
        'Ά' | 'Έ' | 'Ή' | 'Ί' | 'Ό' | 'Ύ' | 'Ώ' => true,
        _ => false,
    }
}

/// Replaces a vowel of the table by its plain counterpart and hands every
/// other character back unchanged.
pub fn strip_accent(c: char) -> (r: char)
    ensures
        r == unaccented(c),
        !is_accented(r),
        !is_accented(c) ==> r == c,
{
    match c {
        'ά' => 'α',
        'έ' => 'ε',
        'ή' => 'η',
        'ί' => 'ι',
        'ό' => 'ο',
        'ύ' => 'υ',
        'ώ' => 'ω',
        'Ά' => 'Α',
        'Έ' => 'Ε',
        'Ή' => 'Η',
        'Ί' => 'Ι',
        'Ό' => 'Ο',
        'Ύ' => 'Υ',
        'Ώ' => 'Ω',
        _ => c,
    }
}

} // verus!

//! What the standard library says of single characters: which of them are
//! letters or digits, and how they change case.
//!
//! Nothing here is proved. The answers come out of the Unicode tables that the
//! standard library is built with, so each one is only given a name, and the
//! rest of the crate reasons about those names.

use vstd::prelude::*;

verus! {

/// The answer of `char::is_alphanumeric` for `c`.
pub uninterp spec fn alphanumeric(c: char) -> bool;

/// The characters that `char::to_lowercase` yields for `c`, in order.
pub uninterp spec fn lowercase_of(c: char) -> Seq<char>;

/// The characters that `char::to_uppercase` yields for `c`, in order.
pub uninterp spec fn uppercase_of(c: char) -> Seq<char>;

/// `char::is_alphanumeric`: the answer depends on the character alone, and is
/// known to the proofs as `alphanumeric(c)`.
pub assume_specification[ char::is_alphanumeric ](c: char) -> (b: bool)
    ensures
        b == alphanumeric(c),
;

/// `char::to_lowercase`, with the characters it yields gathered in a vector.
/// They depend on `c` alone and are known to the proofs as `lowercase_of(c)`;
/// nothing is claimed of how many they are.
#[verifier::external_body]
pub(crate) fn lowercase(c: char) -> (r: Vec<char>)
    ensures
        r@ == lowercase_of(c),
{
    c.to_lowercase().collect()
}

/// `char::to_uppercase`, with the characters it yields gathered in a vector.
/// They depend on `c` alone and are known to the proofs as `uppercase_of(c)`;
/// nothing is claimed of how many they are.
#[verifier::external_body]
pub(crate) fn uppercase(c: char) -> (r: Vec<char>)
    ensures
        r@ == uppercase_of(c),
{
    c.to_uppercase().collect()
}

} // verus!

//! Named groups of a regular expression, matched against a file name.
//!
//! The `regex` crate compiles the pattern and searches the text. What it finds
//! is not proved here: the outcome is given a name, and the rest of the crate
//! reasons about that name.

use vstd::prelude::*;
use regex::Regex;

verus! {

/// The error with which the `regex` crate refuses a pattern.
#[verifier::external_type_specification]
#[verifier::external_body]
pub struct ExRegexError(regex::Error);

/// What the `regex` crate makes of `pattern`, `group` and `text`: `None`
/// where it refuses the pattern; else `Some(None)` where the pattern matches
/// nowhere in `text`, or the leftmost match holds no group named `group` that
/// took part in it; else the part of `text` that this group matched.
pub uninterp spec fn captured(pattern: Seq<char>, group: Seq<char>, text: Seq<char>) -> Option<
    Option<Seq<char>>,
>;

/// The outcome of a search with the error left out, as `captured` gives it.
pub open spec fn outcome<E>(r: Result<Option<String>, E>) -> Option<Option<Seq<char>>> {
    match r {
        Ok(Some(found)) => Some(Some(found@)),
        Ok(None) => Some(None),
        Err(_) => None,
    }
}

/// Compiles `pattern` with `Regex::new`, searches `text` with
/// `Regex::captures`, looks the group up with `Captures::name` and copies the
/// text of its match out of `Match::as_str`. The outcome depends on the three
/// strings alone and is known to the proofs as `captured`; the error is the
/// one that `Regex::new` gave.
#[verifier::external_body]
pub(crate) fn capture(pattern: &str, group: &str, text: &str) -> (r: Result<
    Option<String>,
    regex::Error,
>)
    ensures
        outcome(r) == captured(pattern@, group@, text@),
{
    let re = Regex::new(pattern)?;
    let caps = match re.captures(text) {
        Some(caps) => caps,
        None => return Ok(None),
    };
    match caps.name(group) {
        Some(m) => Ok(Some(m.as_str().to_string())),
        None => Ok(None),
    }
}

} // verus!

//! Searching and rewriting text by regular expressions.
//!
//! The expressions are those of the `regex` crate, which does the matching;
//! what it finds is named here and taken on trust.

use regex::Regex;
use vstd::prelude::*;

verus! {

/// One match of an expression: the text of the whole match and the text of
/// its first group, which is empty where the group took no part.
pub struct Capture {
    pub whole: String,
    pub inner: String,
}

/// The texts of a run of matches.
pub open spec fn capture_pairs(captures: Seq<Capture>) -> Seq<(Seq<char>, Seq<char>)> {
    Seq::new(captures.len(), |i: int| (captures[i].whole@, captures[i].inner@))
}

/// What `Regex::captures_iter` finds of a pattern in a text: the matches
/// from left to right, none overlapping another, each as the text of the
/// whole match and of its first group. `None` where `Regex::new` does not
/// take the pattern.
pub uninterp spec fn captures_of(pattern: Seq<char>, text: Seq<char>) -> Option<
    Seq<(Seq<char>, Seq<char>)>,
>;

/// Compiles the pattern with `Regex::new` and walks the text with
/// `Regex::captures_iter`. The contract names what is found.
#[verifier::external_body]
pub(crate) fn find_captures(pattern: &str, text: &str) -> (out: Option<Vec<Capture>>)
    ensures
        match out {
            Some(captures) => captures_of(pattern@, text@) == Some(capture_pairs(captures@)),
            None => captures_of(pattern@, text@) is None,
        },
{
    let re = Regex::new(pattern).ok()?;
    Some(
        re.captures_iter(text).map(
            |found| Capture {
                whole: found.get(0).map_or("", |m| m.as_str()).to_string(),
                inner: found.get(1).map_or("", |m| m.as_str()).to_string(),
            },
        ).collect(),
    )
}

/// What `Regex::replace_all` makes of a text: every match of the pattern,
/// from left to right and none overlapping another, replaced by the
/// replacement. `None` where `Regex::new` does not take the pattern.
pub uninterp spec fn replaced_all_of(
    pattern: Seq<char>,
    text: Seq<char>,
    replacement: Seq<char>,
) -> Option<Seq<char>>;

/// Compiles the pattern with `Regex::new` and rewrites the text with
/// `Regex::replace_all`. The contract names the result.
#[verifier::external_body]
pub(crate) fn replace_matches(pattern: &str, text: &str, replacement: &str) -> (out: Option<String>)
    ensures
        match out {
            Some(rewritten) => replaced_all_of(pattern@, text@, replacement@) == Some(rewritten@),
            None => replaced_all_of(pattern@, text@, replacement@) is None,
        },
{
    let re = Regex::new(pattern).ok()?;
    Some(re.replace_all(text, replacement).into_owned())
}

} // verus!

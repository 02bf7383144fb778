//! The back of a closed book.

use vstd::prelude::*;

verus! {

/// The back of a closed book.
pub struct BackCover<'a> {
    pub content: &'a str,
}

impl<'a> BackCover<'a> {
    /// The cover with the given text on it.
    pub fn new(content: &'a str) -> (out: Self)
        ensures
            out.content@ == content@,
    {
        BackCover { content }
    }
}

} // verus!

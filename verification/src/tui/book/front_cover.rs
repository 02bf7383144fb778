//! The front of a closed book.

use vstd::prelude::*;

verus! {

/// The front of a closed book.
pub struct FrontCover<'a> {
    pub content: &'a str,
}

impl<'a> FrontCover<'a> {
    /// The cover with the given text on it.
    pub fn new(content: &'a str) -> (out: Self)
        ensures
            out.content@ == content@,
    {
        FrontCover { content }
    }
}

} // verus!

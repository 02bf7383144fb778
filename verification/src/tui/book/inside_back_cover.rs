//! The inside of the back cover, to the right of the last page.

use vstd::prelude::*;

verus! {

/// The inside of the back cover, to the right of the last page.
pub struct InsideBackCover<'a> {
    pub content: &'a str,
}

impl<'a> InsideBackCover<'a> {
    /// The cover with the given text on it.
    pub fn new(content: &'a str) -> (out: Self)
        ensures
            out.content@ == content@,
    {
        InsideBackCover { content }
    }
}

} // verus!

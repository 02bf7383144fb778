//! The inside of the front cover, to the left of the first page.

use vstd::prelude::*;

verus! {

/// The inside of the front cover, to the left of the first page.
pub struct InsideFrontCover<'a> {
    pub content: &'a str,
}

impl<'a> InsideFrontCover<'a> {
    /// The cover with the given text on it.
    pub fn new(content: &'a str) -> (out: Self)
        ensures
            out.content@ == content@,
    {
        InsideFrontCover { content }
    }
}

} // verus!

//! The title screen.

use vstd::prelude::*;

verus! {

#[derive(Clone, Copy, Debug, PartialEq, Eq, Structural)]
pub struct TitleMenuRoutine;

impl TitleMenuRoutine {
    /// A title screen.
    pub fn new(&self) -> (out: Self)
        ensures
            out == TitleMenuRoutine,
    {
        TitleMenuRoutine
    }
}

} // verus!

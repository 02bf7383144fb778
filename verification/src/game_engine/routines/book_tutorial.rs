//! The tutorial in which the player learns how books are used and chooses
//! their first.

use crate::models::player::player::Player;
use vstd::prelude::*;

verus! {

pub struct BookTutorialRoutine {
    pub player: Player,
}

/// What the narrator says first.
pub const OPENING: &'static str = "Okay, young one.";

/// What the narrator says next.
pub const CALLING: &'static str = "It's time to begin your own story.";

impl BookTutorialRoutine {
    /// The tutorial of a player.
    pub fn new(player: Player) -> (out: Self)
        ensures
            out.player == player,
    {
        BookTutorialRoutine { player }
    }

    /// The lines of the narrator, in their order. The player confirms each
    /// before the next is shown.
    pub fn lines(&self) -> (out: Vec<&'static str>)
        ensures
            out@.len() == 2,
            out@[0]@ == OPENING@,
            out@[1]@ == CALLING@,
    {
        let mut out: Vec<&'static str> = Vec::new();
        out.push(OPENING);
        out.push(CALLING);
        out
    }
}

} // verus!

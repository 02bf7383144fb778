//! Building and changing a book.

use crate::models::player::player::Player;
use vstd::prelude::*;

verus! {

pub struct BookBuilderRoutine {
    pub player: Player,
}

impl BookBuilderRoutine {
    /// The book builder of a player.
    pub fn new(player: Player) -> (out: Self)
        ensures
            out.player == player,
    {
        BookBuilderRoutine { player }
    }
}

} // verus!

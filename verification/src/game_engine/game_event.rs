//! What can happen while the game waits for the player.

use crate::world::navigation::Key;
use vstd::prelude::*;

verus! {

#[derive(Clone, Copy, Debug, PartialEq, Eq, Structural)]
pub enum GameEvent {
    Quit,
    ToggleMusic,
    PlayMusic,
    Continue,
    /// A key that is part of what the player types.
    Typing(Key),
    /// Any other key.
    Other(Key),
}

} // verus!

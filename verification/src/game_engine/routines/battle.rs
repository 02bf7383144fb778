//! A battle between the player and an enemy.

use crate::models::non_player_character::non_player_character::NPC;
use crate::models::player::player::Player;
use vstd::prelude::*;

verus! {

pub struct BattleRoutine {
    pub player: Player,
    pub enemy: NPC,
}

impl BattleRoutine {
    /// A battle of the player against the enemy.
    pub fn new(player: Player, enemy: NPC) -> (out: Self)
        ensures
            out.player == player,
            out.enemy == enemy,
    {
        BattleRoutine { player, enemy }
    }
}

} // verus!

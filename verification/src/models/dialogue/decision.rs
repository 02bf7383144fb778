//! What the player decided at a line of dialogue.

use std::time::Duration;
use vstd::prelude::*;

verus! {

/// A decision of a player in a dialogue.
#[derive(Debug)]
pub struct Decision {
    pub id: u32,
    /// The player who decided.
    pub player_id: u32,
    /// The line at which they decided.
    pub dialogue_id: u32,
    /// The answer they chose; none where they typed one.
    pub response_id: Option<u32>,
    /// How long they took.
    pub deliberation_time: Duration,
}

impl Decision {
    /// A decision with the given parts.
    pub fn new(
        id: u32,
        player_id: u32,
        dialogue_id: u32,
        response_id: Option<u32>,
        deliberation_time: Duration,
    ) -> (out: Decision)
        ensures
            out.id == id,
            out.player_id == player_id,
            out.dialogue_id == dialogue_id,
            out.response_id == response_id,
            out.deliberation_time == deliberation_time,
    {
        Decision { id, player_id, dialogue_id, response_id, deliberation_time }
    }
}

} // verus!

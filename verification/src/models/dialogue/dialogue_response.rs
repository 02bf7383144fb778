//! An answer that the player can choose.

use vstd::prelude::*;

verus! {

/// One of the answers to a line of dialogue.
#[derive(Clone, Debug)]
pub struct DialogueResponse {
    /// The number that the save file gives the answer; zero before that.
    pub id: u32,
    /// The line that is answered.
    pub dialogue_id: u32,
    pub text: String,
    /// The line that follows the answer.
    pub next_id: u32,
}

impl DialogueResponse {
    /// An answer that has not been saved yet.
    pub fn new(dialogue_id: u32, text: String, next_id: u32) -> (out: DialogueResponse)
        ensures
            out.id == 0,
            out.dialogue_id == dialogue_id,
            out.text == text,
            out.next_id == next_id,
    {
        DialogueResponse { id: 0, dialogue_id, text, next_id }
    }
}

} // verus!

//! A non-player character.

use crate::models::player::gender::Gender;
use chrono::NaiveDateTime;
use vstd::prelude::*;

verus! {

/// A non-player character.
#[derive(Clone, Debug)]
pub struct NPC {
    /// The number that the save file gives the character; zero before that.
    pub id: i32,
    pub name: String,
    pub gender: Gender,
    pub created_at: NaiveDateTime,
    pub updated_at: NaiveDateTime,
}

impl NPC {
    /// A character who has not been saved yet, made at the given time.
    pub fn new(name: String, gender: Gender, now: NaiveDateTime) -> (npc: NPC)
        ensures
            npc.id == 0,
            npc.name == name,
            npc.gender == gender,
            npc.created_at == now,
            npc.updated_at == now,
    {
        NPC { id: 0, name, gender, created_at: now, updated_at: now }
    }
}

} // verus!

//! What is said in the game, and what the player answers.

pub mod character_type;
pub mod decision;
pub mod dialogue;
pub mod dialogue_response;

//! The records of the game: the player, the people they meet, what is said
//! and how far the story has come.

pub mod game_state;
pub mod non_player_character;
pub mod player;
pub mod dialogue;

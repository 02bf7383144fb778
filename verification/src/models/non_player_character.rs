//! The people of the game that the player does not play.

pub mod non_player_character;

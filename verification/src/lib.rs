//! A two-voice chiptune engine and the rule book of a small terminal
//! adventure.
//!
//! The `music` modules hold the sample-exact sequencer, the oscillators and
//! the mixer, together with the playback controller that drives them. The
//! other modules hold the rules of the game around it: its records, its
//! maps, and what its screens show. Nothing here touches a terminal, a file
//! or an audio device; every function gives what is to be shown, stored or
//! played.

pub mod args;
pub mod db;
pub mod game_engine;
pub mod models;
pub mod music;
pub mod pattern;
pub mod terminal_utils;
pub mod text;
pub mod thread_demo;
pub mod tui;
pub mod world;

pub use models::game_state::GameState;
pub use models::player::{Gender, Player};
pub use music::music_player::MusicPlayer;
pub use terminal_utils::{action_required, simulate_typing};

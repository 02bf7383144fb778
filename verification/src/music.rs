//! Sequencing and synthesis of the two-track score.

pub mod misty;
pub mod music_player;
pub mod pitch;
pub mod sequencer;
pub mod synth;

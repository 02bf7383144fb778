//! The player and what describes them.

pub mod background;
pub mod gender;
pub mod height;
pub mod player;

pub use gender::{Gender, GenderParseError};
pub use player::Player;

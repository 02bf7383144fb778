//! The parts of the screen. They only say what is to be drawn; they handle
//! no data and decide nothing about the game.

pub mod book;
pub mod window;

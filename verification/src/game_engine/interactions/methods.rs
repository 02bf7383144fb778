//! The interactions that the game engine offers.

pub mod menu_select;

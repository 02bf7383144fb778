//! Routines: the loops that each run one kind of play.
//!
//! A routine here holds the rules of its loop: what is shown, what an
//! answer of the player leads to, and when the loop ends. Showing and
//! asking are the caller's.

pub mod battle;
pub mod book_builder;
pub mod book_tutorial;
pub mod dialogue;
pub mod title_menu;
pub mod world_navigation;

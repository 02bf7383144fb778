//! The parts of a book as they are drawn: its covers from outside and from
//! inside.

pub mod back_cover;
pub mod front_cover;
pub mod inside_back_cover;
pub mod inside_front_cover;

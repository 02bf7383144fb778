//! Interactions: loops that draw something and wait for the player to
//! answer it. The rules of each loop are here; the drawing and the waiting
//! are the caller's.

pub mod methods;

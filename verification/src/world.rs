//! The world: maps, movement on them, and the part of a map that is shown.

pub mod map;
pub mod map_file_utils;
pub mod navigation;
pub mod viewport;


//! A small counter with a name field, to try the terminal out.

pub mod run_demo;

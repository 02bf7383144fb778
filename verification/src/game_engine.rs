//! The rules that drive the game from one screen to the next.

pub mod game_engine;
pub mod game_event;
pub mod interactions;
pub mod routines;

use crate::db::ColumnError;
use vstd::prelude::*;

verus! {

/// The screen that the game shows.
#[derive(Clone, Copy, Debug, PartialEq, Eq, Structural)]
pub enum InterfaceMode {
    Dialogue,
    WorldNavigation,
    Battle,
    BookBuilder,
}

impl InterfaceMode {
    /// The number under which a mode is stored.
    pub open spec fn code(self) -> int {
        match self {
            InterfaceMode::Dialogue => 0,
            InterfaceMode::WorldNavigation => 1,
            InterfaceMode::Battle => 2,
            InterfaceMode::BookBuilder => 3,
        }
    }

    /// The number under which the mode is stored.
    pub fn to_sql(&self) -> (value: i64)
        ensures
            value == self.code(),
    {
        match self {
            InterfaceMode::Dialogue => 0,
            InterfaceMode::WorldNavigation => 1,
            InterfaceMode::Battle => 2,
            InterfaceMode::BookBuilder => 3,
        }
    }

    /// Reads a stored number back; a number that stands for no mode is of
    /// an invalid type.
    pub fn column_result(value: i64) -> (out: Result<InterfaceMode, ColumnError>)
        ensures
            match out {
                Ok(mode) => mode.code() == value,
                Err(e) => e == ColumnError::InvalidType && !(0 <= value <= 3),
            },
    {
        match value {
            0 => Ok(InterfaceMode::Dialogue),
            1 => Ok(InterfaceMode::WorldNavigation),
            2 => Ok(InterfaceMode::Battle),
            3 => Ok(InterfaceMode::BookBuilder),
            _ => Err(ColumnError::InvalidType),
        }
    }
}

/// No two modes are stored under one number, so that each is read back as
/// it was stored.
pub proof fn lemma_interface_mode_round_trip(a: InterfaceMode, b: InterfaceMode)
    requires
        a.code() == b.code(),
    ensures
        a == b,
{
}

} // verus!

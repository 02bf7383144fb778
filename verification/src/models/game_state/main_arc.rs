//! The main arc: which of the four protagonists the player's story is
//! bound up with. Once it is determined it stays for the rest of the save
//! file.

use crate::db::ColumnError;
use vstd::prelude::*;

verus! {

#[derive(Clone, Copy, Debug, PartialEq, Eq, Structural)]
pub enum MainArc {
    Undetermined,
    ThomasMoss,
    RachelRamsayer,
    LaureliDuval,
    GeneParker,
}

impl MainArc {
    /// The number under which an arc is stored.
    pub open spec fn code(self) -> int {
        match self {
            MainArc::Undetermined => 0,
            MainArc::ThomasMoss => 1,
            MainArc::RachelRamsayer => 2,
            MainArc::LaureliDuval => 3,
            MainArc::GeneParker => 4,
        }
    }

    /// The number under which the arc is stored.
    pub fn to_sql(&self) -> (value: i64)
        ensures
            value == self.code(),
    {
        match self {
            MainArc::Undetermined => 0,
            MainArc::ThomasMoss => 1,
            MainArc::RachelRamsayer => 2,
            MainArc::LaureliDuval => 3,
            MainArc::GeneParker => 4,
        }
    }

    /// Reads a stored number back; a number that stands for no arc is of
    /// an invalid type.
    pub fn column_result(value: i64) -> (out: Result<MainArc, ColumnError>)
        ensures
            match out {
                Ok(arc) => arc.code() == value,
                Err(e) => e == ColumnError::InvalidType && !(0 <= value <= 4),
            },
    {
        match value {
            0 => Ok(MainArc::Undetermined),
            1 => Ok(MainArc::ThomasMoss),
            2 => Ok(MainArc::RachelRamsayer),
            3 => Ok(MainArc::LaureliDuval),
            4 => Ok(MainArc::GeneParker),
            _ => Err(ColumnError::InvalidType),
        }
    }
}

/// No two arcs are stored under one number, so that each is read back as
/// it was stored.
pub proof fn lemma_main_arc_round_trip(a: MainArc, b: MainArc)
    requires
        a.code() == b.code(),
    ensures
        a == b,
{
}

} // verus!

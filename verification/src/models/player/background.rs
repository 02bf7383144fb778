//! Where the player comes from: the choice that ends character creation.

use crate::db::ColumnError;
use vstd::prelude::*;

verus! {

#[derive(Clone, Copy, Debug, PartialEq, Eq, Structural)]
pub enum Background {
    Undetermined,
    Farmer,
    Solider,
    Trader,
    Politician,
    Craftsman,
}

impl Background {
    /// The number that a stored background is read back from.
    pub open spec fn code(self) -> int {
        match self {
            Background::Undetermined => 0,
            Background::Farmer => 1,
            Background::Solider => 2,
            Background::Trader => 3,
            Background::Politician => 4,
            Background::Craftsman => 5,
        }
    }

    /// The number under which a background is stored. A craftsman is
    /// stored under the number of a politician.
    pub open spec fn stored_code(self) -> int {
        match self {
            Background::Craftsman => 4,
            other => other.code(),
        }
    }

    /// The number under which the background is stored.
    pub fn to_sql(&self) -> (value: i64)
        ensures
            value == self.stored_code(),
    {
        match self {
            Background::Undetermined => 0,
            Background::Farmer => 1,
            Background::Solider => 2,
            Background::Trader => 3,
            Background::Politician => 4,
            Background::Craftsman => 4,
        }
    }

    /// Reads a stored number back; a number that stands for no background
    /// is of an invalid type.
    pub fn column_result(value: i64) -> (out: Result<Background, ColumnError>)
        ensures
            match out {
                Ok(background) => background.code() == value,
                Err(e) => e == ColumnError::InvalidType && !(0 <= value <= 5),
            },
    {
        match value {
            0 => Ok(Background::Undetermined),
            1 => Ok(Background::Farmer),
            2 => Ok(Background::Solider),
            3 => Ok(Background::Trader),
            4 => Ok(Background::Politician),
            5 => Ok(Background::Craftsman),
            _ => Err(ColumnError::InvalidType),
        }
    }
}

/// Every background but the craftsman is read back as it was stored; the
/// craftsman is read back as a politician.
pub proof fn lemma_background_round_trip(stored: Background, read: Background)
    requires
        read.code() == stored.stored_code(),
    ensures
        stored != Background::Craftsman ==> read == stored,
        stored == Background::Craftsman ==> read == Background::Politician,
{
}

} // verus!

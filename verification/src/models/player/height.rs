//! How tall the player is.

use crate::db::ColumnError;
use vstd::prelude::*;

verus! {

#[derive(Clone, Copy, Debug, PartialEq, Eq, Structural)]
pub enum Height {
    VeryShort,
    Short,
    Average,
    Tall,
    VeryTall,
}

impl Height {
    /// The number under which a height is stored.
    pub open spec fn code(self) -> int {
        match self {
            Height::VeryShort => 0,
            Height::Short => 1,
            Height::Average => 2,
            Height::Tall => 3,
            Height::VeryTall => 4,
        }
    }

    /// The words for a height.
    pub open spec fn name(self) -> Seq<char> {
        match self {
            Height::VeryShort => "Very Short"@,
            Height::Short => "Short"@,
            Height::Average => "Average"@,
            Height::Tall => "Tall"@,
            Height::VeryTall => "Very Tall"@,
        }
    }

    /// The number under which the height is stored.
    pub fn to_sql(&self) -> (value: i64)
        ensures
            value == self.code(),
    {
        match self {
            Height::VeryShort => 0,
            Height::Short => 1,
            Height::Average => 2,
            Height::Tall => 3,
            Height::VeryTall => 4,
        }
    }

    /// Reads a stored number back; a number that stands for no height is
    /// of an invalid type.
    pub fn column_result(value: i64) -> (out: Result<Height, ColumnError>)
        ensures
            match out {
                Ok(height) => height.code() == value,
                Err(e) => e == ColumnError::InvalidType && !(0 <= value <= 4),
            },
    {
        match value {
            0 => Ok(Height::VeryShort),
            1 => Ok(Height::Short),
            2 => Ok(Height::Average),
            3 => Ok(Height::Tall),
            4 => Ok(Height::VeryTall),
            _ => Err(ColumnError::InvalidType),
        }
    }

    /// The words for the height, as a menu shows them.
    pub fn to_string(&self) -> (out: String)
        ensures
            out@ == self.name(),
    {
        match self {
            Height::VeryShort => String::from_str("Very Short"),
            Height::Short => String::from_str("Short"),
            Height::Average => String::from_str("Average"),
            Height::Tall => String::from_str("Tall"),
            Height::VeryTall => String::from_str("Very Tall"),
        }
    }
}

/// No two heights are stored under one number, so that each is read back
/// as it was stored.
pub proof fn lemma_height_round_trip(a: Height, b: Height)
    requires
        a.code() == b.code(),
    ensures
        a == b,
{
}

} // verus!

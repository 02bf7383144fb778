//! The gender of a character.

use crate::db::ColumnError;
use crate::text::{
    debug_quote, debug_quoted, from_chars, lowercased, push_text, same_text, to_chars,
    to_lowercase, trim, trimmed,
};
use vstd::prelude::*;

verus! {

/// The gender of a character in the game.
#[derive(Clone, Copy, Debug, PartialEq, Eq, Structural)]
pub enum Gender {
    Male,
    Female,
    Unspecified,
}

/// Why a text could not be read as a gender.
#[derive(Clone, Debug)]
pub enum GenderParseError {
    /// The text, trimmed and in lower case, names no gender.
    InvalidGender(String),
}

impl GenderParseError {
    /// The text that was not understood.
    pub open spec fn text(self) -> Seq<char> {
        match self {
            GenderParseError::InvalidGender(text) => text@,
        }
    }

    /// The message of the error: that the gender is invalid, and the text
    /// that was not understood, quoted.
    pub fn to_string(&self) -> (out: String)
        ensures
            out@ == "Invalid gender: InvalidGender("@ + debug_quoted(self.text()) + ")"@,
    {
        let mut message: Vec<char> = Vec::new();
        push_text(&mut message, "Invalid gender: InvalidGender(");
        match self {
            GenderParseError::InvalidGender(text) => {
                let quoted: String = debug_quote(text.as_str());
                push_text(&mut message, quoted.as_str());
            },
        }
        push_text(&mut message, ")");
        assert(message@ =~= "Invalid gender: InvalidGender("@ + debug_quoted(self.text()) + ")"@);
        from_chars(&message)
    }
}

impl Gender {
    /// The number under which a gender is stored.
    pub open spec fn code(self) -> int {
        match self {
            Gender::Male => 0,
            Gender::Female => 1,
            Gender::Unspecified => 2,
        }
    }

    /// The word under which a gender is stored as text.
    pub open spec fn db_name(self) -> Seq<char> {
        match self {
            Gender::Male => "male"@,
            Gender::Female => "female"@,
            Gender::Unspecified => "unspecified"@,
        }
    }

    /// The word for a gender.
    pub open spec fn name(self) -> Seq<char> {
        match self {
            Gender::Male => "Male"@,
            Gender::Female => "Female"@,
            Gender::Unspecified => "Unspecified"@,
        }
    }

    /// The words under which a gender is offered for choice.
    pub open spec fn choice(self) -> Seq<char> {
        match self {
            Gender::Male => "Male"@,
            Gender::Female => "Female"@,
            Gender::Unspecified => "Choose not to specify"@,
        }
    }

    /// The gender that a word of the database stands for; any other text
    /// stands for the unspecified one.
    pub open spec fn of_db_name(s: Seq<char>) -> Gender {
        if s == "male"@ {
            Gender::Male
        } else if s == "female"@ {
            Gender::Female
        } else {
            Gender::Unspecified
        }
    }

    /// The gender that a choice stands for; any other text stands for the
    /// unspecified one.
    pub open spec fn of_choice(s: Seq<char>) -> Gender {
        if s == "Male"@ {
            Gender::Male
        } else if s == "Female"@ {
            Gender::Female
        } else {
            Gender::Unspecified
        }
    }

    /// The word under which the gender is stored as text.
    pub fn to_db_string(&self) -> (out: &'static str)
        ensures
            out@ == self.db_name(),
    {
        match self {
            Gender::Male => "male",
            Gender::Female => "female",
            Gender::Unspecified => "unspecified",
        }
    }

    /// Reads a choice of the player.
    pub fn from_string(s: &str) -> (out: Gender)
        ensures
            out == Gender::of_choice(s@),
    {
        if same_text(s, "Male") {
            Gender::Male
        } else if same_text(s, "Female") {
            Gender::Female
        } else {
            Gender::Unspecified
        }
    }

    /// Reads a word of the database.
    pub fn from_db_string(s: &str) -> (out: Gender)
        ensures
            out == Gender::of_db_name(s@),
    {
        if same_text(s, "male") {
            Gender::Male
        } else if same_text(s, "female") {
            Gender::Female
        } else {
            Gender::Unspecified
        }
    }

    /// Reads a gender from a text, whatever its case and the white space
    /// around it. A text that names no gender is handed back in the error,
    /// trimmed and in lower case.
    pub fn parse(s: &str) -> (out: Result<Gender, GenderParseError>)
        ensures
            match out {
                Ok(gender) => lowercased(trimmed(s@)) == gender.db_name(),
                Err(GenderParseError::InvalidGender(text)) => {
                    &&& text@ == lowercased(trimmed(s@))
                    &&& text@ != "male"@
                    &&& text@ != "female"@
                    &&& text@ != "unspecified"@
                },
            },
    {
        let chars: Vec<char> = to_chars(s);
        let core: Vec<char> = trim(&chars);
        let core_text: String = from_chars(&core);
        let lower: String = to_lowercase(core_text.as_str());
        if same_text(lower.as_str(), "male") {
            Ok(Gender::Male)
        } else if same_text(lower.as_str(), "female") {
            Ok(Gender::Female)
        } else if same_text(lower.as_str(), "unspecified") {
            Ok(Gender::Unspecified)
        } else {
            Err(GenderParseError::InvalidGender(lower))
        }
    }

    /// The word for the gender, as a menu shows it.
    pub fn to_string(&self) -> (out: String)
        ensures
            out@ == self.name(),
    {
        match self {
            Gender::Male => String::from_str("Male"),
            Gender::Female => String::from_str("Female"),
            Gender::Unspecified => String::from_str("Unspecified"),
        }
    }

    /// The words under which the gender is offered for choice.
    pub fn to_choice_string(&self) -> (out: String)
        ensures
            out@ == self.choice(),
    {
        match self {
            Gender::Male => String::from_str("Male"),
            Gender::Female => String::from_str("Female"),
            Gender::Unspecified => String::from_str("Choose not to specify"),
        }
    }

    /// The number under which the gender is stored.
    pub fn to_sql(&self) -> (value: i64)
        ensures
            value == self.code(),
    {
        match self {
            Gender::Male => 0,
            Gender::Female => 1,
            Gender::Unspecified => 2,
        }
    }

    /// Reads a stored number back; a number that stands for no gender is
    /// of an invalid type.
    pub fn column_result(value: i64) -> (out: Result<Gender, ColumnError>)
        ensures
            match out {
                Ok(gender) => gender.code() == value,
                Err(e) => e == ColumnError::InvalidType && !(0 <= value <= 2),
            },
    {
        match value {
            0 => Ok(Gender::Male),
            1 => Ok(Gender::Female),
            2 => Ok(Gender::Unspecified),
            _ => Err(ColumnError::InvalidType),
        }
    }
}

impl core::str::FromStr for Gender {
    type Err = GenderParseError;

    fn from_str(s: &str) -> (out: Result<Gender, GenderParseError>)
        ensures
            match out {
                Ok(gender) => lowercased(trimmed(s@)) == gender.db_name(),
                Err(GenderParseError::InvalidGender(text)) => {
                    &&& text@ == lowercased(trimmed(s@))
                    &&& text@ != "male"@
                    &&& text@ != "female"@
                    &&& text@ != "unspecified"@
                },
            },
    {
        Gender::parse(s)
    }
}

/// Every gender is read back from the word it is stored under, from the
/// words it is offered under, and from its number.
pub proof fn lemma_gender_round_trip(gender: Gender)
    ensures
        Gender::of_db_name(gender.db_name()) == gender,
        Gender::of_choice(gender.choice()) == gender,
        forall|other: Gender| other.code() == gender.code() ==> other == gender,
{
    reveal_strlit("male");
    reveal_strlit("female");
    reveal_strlit("unspecified");
    reveal_strlit("Male");
    reveal_strlit("Female");
    reveal_strlit("Choose not to specify");
    assert("male"@.len() == 4);
    assert("female"@.len() == 6);
    assert("unspecified"@.len() == 11);
    assert("Male"@.len() == 4);
    assert("Female"@.len() == 6);
    assert("Choose not to specify"@.len() == 21);
}

} // verus!

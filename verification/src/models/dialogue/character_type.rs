//! Who speaks a line: the player or somebody else.

use crate::db::ColumnError;
use crate::text::same_text;
use vstd::prelude::*;

verus! {

#[derive(Clone, Copy, Debug, PartialEq, Eq, Structural)]
pub enum CharacterType {
    Player,
    /// Sometimes shortened to NPC.
    NonPlayerCharacter,
}

impl CharacterType {
    /// The word for a kind of character.
    pub open spec fn name(self) -> Seq<char> {
        match self {
            CharacterType::Player => "player"@,
            CharacterType::NonPlayerCharacter => "non_player_character"@,
        }
    }

    /// The kind of character that a word stands for.
    pub open spec fn of_name(s: Seq<char>) -> Option<CharacterType> {
        if s == "player"@ {
            Some(CharacterType::Player)
        } else if s == "non_player_character"@ {
            Some(CharacterType::NonPlayerCharacter)
        } else {
            None
        }
    }

    /// Reads a kind of character from its word.
    pub fn from_str(s: &str) -> (out: Option<CharacterType>)
        ensures
            out == CharacterType::of_name(s@),
    {
        if same_text(s, "player") {
            Some(CharacterType::Player)
        } else if same_text(s, "non_player_character") {
            Some(CharacterType::NonPlayerCharacter)
        } else {
            None
        }
    }

    /// The word for the kind of character.
    pub fn to_string(&self) -> (out: String)
        ensures
            out@ == self.name(),
    {
        match self {
            CharacterType::Player => String::from_str("player"),
            CharacterType::NonPlayerCharacter => String::from_str("non_player_character"),
        }
    }

    /// The word under which the kind of character is stored.
    pub fn to_sql(&self) -> (out: &'static str)
        ensures
            out@ == self.name(),
    {
        match self {
            CharacterType::Player => "player",
            CharacterType::NonPlayerCharacter => "non_player_character",
        }
    }

    /// Reads a stored word back; a word that stands for no kind of
    /// character is out of range.
    pub fn column_result(value: &str) -> (out: Result<CharacterType, ColumnError>)
        ensures
            match out {
                Ok(kind) => CharacterType::of_name(value@) == Some(kind),
                Err(e) => e == ColumnError::OutOfRange(-1i64) && CharacterType::of_name(value@) is None,
            },
    {
        match CharacterType::from_str(value) {
            Some(kind) => Ok(kind),
            None => Err(ColumnError::OutOfRange(-1)),
        }
    }
}

/// Every kind of character is read back from its word.
pub proof fn lemma_character_type_round_trip(kind: CharacterType)
    ensures
        CharacterType::of_name(kind.name()) == Some(kind),
{
    reveal_strlit("player");
    reveal_strlit("non_player_character");
    assert("player"@.len() == 6);
    assert("non_player_character"@.len() == 20);
}

} // verus!

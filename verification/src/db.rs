//! Names of the save file and its tables, and how stored values are read.

pub mod save;

use vstd::prelude::*;

verus! {

/// The save file that is used where none is named.
pub const DEFAULT_DB: &'static str = "save_file.db";

pub const BOOK_PAGE_TABLE: &'static str = "book_pages";

pub const BOOK_PASSIVE_TABLE: &'static str = "book_passives";

pub const BOOK_TABLE: &'static str = "books";

pub const DECISION_TABLE: &'static str = "decisions";

pub const DIALOGUE_TABLE: &'static str = "dialogue";

pub const DIALOGUE_RESPONSE_TABLE: &'static str = "dialogue_responses";

pub const GAME_STATE_TABLE: &'static str = "game_states";

pub const NPC_TABLE: &'static str = "non_player_characters";

pub const PAGE_ACTION_TABLE: &'static str = "page_actions";

pub const PAGE_PASSIVE_TABLE: &'static str = "page_passives";

pub const PAGE_TABLE: &'static str = "pages";

pub const PLAYER_TABLE: &'static str = "players";

/// The directory that holds the save files.
pub const SAVE_DIR: &'static str = "saves";

/// Why a stored value could not be read back as the type asked for.
#[derive(Clone, Copy, Debug, PartialEq, Eq, Structural)]
pub enum ColumnError {
    /// The value stands for no variant of the type.
    InvalidType,
    /// The value lies outside the range of the type.
    OutOfRange(i64),
}

} // verus!

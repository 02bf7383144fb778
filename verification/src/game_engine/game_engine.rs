//! The course of the game from the title to the first walk on the map.
//!
//! The engine itself, which holds the save file and the music, belongs to
//! the program; what it decides on the way is here.

use crate::game_engine::InterfaceMode;
use crate::models::game_state::GameState;
use crate::models::player::gender::Gender;
use crate::models::player::height::Height;
use crate::text::same_text;
use vstd::prelude::*;

verus! {

/// The stage at which the player makes their character.
pub const CHARACTER_CREATION: &'static str = "character_creation";

/// The stage at which the player learns about books.
pub const BOOK_TUTORIAL: &'static str = "book_tutorial";

/// The name of the conversation that a new game begins with.
pub const FIRST_DIALOGUE: &'static str = "character_creation";

/// The question for the gender of the player.
pub const GENDER_QUESTION: &'static str = "Wait. One more thing before we continue. Are you a...:";

/// The question for the height of the player.
pub const HEIGHT_QUESTION: &'static str =
    "And, I know this is maybe a weird question, but I have to ask. How tall are you?:";

/// Whether the player still has to make their character.
pub fn in_character_creation(state: &GameState) -> (out: bool)
    ensures
        out == (state.current_stage@ == CHARACTER_CREATION@),
{
    same_text(state.current_stage.as_str(), CHARACTER_CREATION)
}

/// The genders that the player chooses from, in the order of the menu.
pub fn gender_options() -> (out: Vec<Gender>)
    ensures
        out@ == seq![Gender::Male, Gender::Female, Gender::Unspecified],
{
    let mut out: Vec<Gender> = Vec::new();
    out.push(Gender::Male);
    out.push(Gender::Female);
    out.push(Gender::Unspecified);
    assert(out@ =~= seq![Gender::Male, Gender::Female, Gender::Unspecified]);
    out
}

/// The heights that the player chooses from, in the order of the menu.
pub fn height_options() -> (out: Vec<Height>)
    ensures
        out@ == seq![
            Height::VeryShort,
            Height::Short,
            Height::Average,
            Height::Tall,
            Height::VeryTall,
        ],
{
    let mut out: Vec<Height> = Vec::new();
    out.push(Height::VeryShort);
    out.push(Height::Short);
    out.push(Height::Average);
    out.push(Height::Tall);
    out.push(Height::VeryTall);
    assert(out@ =~= seq![
        Height::VeryShort,
        Height::Short,
        Height::Average,
        Height::Tall,
        Height::VeryTall,
    ]);
    out
}

/// Moves the state on from the making of the character to the tutorial.
/// Nothing else changes.
pub fn finish_character_creation(state: &mut GameState)
    ensures
        final(state).current_stage@ == BOOK_TUTORIAL@,
        final(state).player_id == old(state).player_id,
        final(state).interface_mode == old(state).interface_mode,
        final(state).current_epic == old(state).current_epic,
        final(state).x == old(state).x,
        final(state).y == old(state).y,
        final(state).direction == old(state).direction,
        final(state).total_play_time == old(state).total_play_time,
        final(state).created_at == old(state).created_at,
        final(state).updated_at == old(state).updated_at,
{
    state.current_stage = String::from_str(BOOK_TUTORIAL);
}

/// Whether the tutorial follows the walk on the map: it does where the
/// walk ended in the book builder, and nothing else is provided for.
pub fn leads_to_tutorial(mode: InterfaceMode) -> (out: bool)
    ensures
        out == (mode == InterfaceMode::BookBuilder),
{
    mode == InterfaceMode::BookBuilder
}

} // verus!

//! Choosing an option from a menu.

use crate::world::navigation::Key;
use vstd::prelude::*;

verus! {

/// What a key does to a menu.
#[derive(Clone, Copy, Debug, PartialEq, Eq, Structural)]
pub enum MenuStep {
    /// The mark stands at this option now, and the menu is drawn anew.
    Mark(usize),
    /// This option is chosen, and the menu is closed.
    Choose(usize),
}

/// What a key does to a menu of `options` options with the mark at
/// `selected_index`: the arrows move the mark up and down as far as the
/// menu goes, enter chooses the marked option, and any other key chooses
/// the first.
pub open spec fn menu_step(selected_index: usize, options: usize, key: Key) -> MenuStep {
    match key {
        Key::Up => MenuStep::Mark(
            if selected_index > 0 {
                (selected_index - 1) as usize
            } else {
                selected_index
            },
        ),
        Key::Down => MenuStep::Mark(
            if selected_index < options - 1 {
                (selected_index + 1) as usize
            } else {
                selected_index
            },
        ),
        Key::Enter => MenuStep::Choose(selected_index),
        _ => MenuStep::Choose(0),
    }
}

/// Takes a key in a menu, which must have an option, with the mark on one
/// of them.
pub fn menu_select(selected_index: usize, options: usize, key: Key) -> (out: MenuStep)
    requires
        selected_index < options,
    ensures
        out == menu_step(selected_index, options, key),
        match out {
            MenuStep::Mark(index) => index < options,
            MenuStep::Choose(index) => index < options,
        },
{
    match key {
        Key::Up => {
            if selected_index > 0 {
                MenuStep::Mark(selected_index - 1)
            } else {
                MenuStep::Mark(selected_index)
            }
        },
        Key::Down => {
            if selected_index < options - 1 {
                MenuStep::Mark(selected_index + 1)
            } else {
                MenuStep::Mark(selected_index)
            }
        },
        Key::Enter => MenuStep::Choose(selected_index),
        _ => MenuStep::Choose(0),
    }
}

} // verus!

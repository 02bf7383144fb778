//! Walking the map.

use crate::game_engine::InterfaceMode;
use crate::models::game_state::GameState;
use crate::world::navigation::{walk_outcome, walked, NavigationAction, Position, Walk};
use vstd::prelude::*;

verus! {

pub struct WorldNavigationRoutine {
    pub game_state: GameState,
}

/// The width of the map that is walked.
pub const MAP_WIDTH: usize = 500;

/// The height of the map that is walked.
pub const MAP_HEIGHT: usize = 100;

/// The column of the place where the book builder opens.
pub const BOOK_BUILDER_X: usize = 1;

/// The row of the place where the book builder opens.
pub const BOOK_BUILDER_Y: usize = 2;

/// What the routine does next.
#[derive(Clone, Copy, Debug, PartialEq, Eq, Structural)]
pub enum NextStep {
    /// Show the map and wait for the next action.
    Wait,
    /// Fit the view to the terminal, then show the map and wait.
    Refit,
    /// End the routine and go on in this mode.
    End(InterfaceMode),
}

impl WorldNavigationRoutine {
    /// The walk of the player whose state this is.
    pub fn new(game_state: GameState) -> (out: Self)
        ensures
            out.game_state == game_state,
    {
        WorldNavigationRoutine { game_state }
    }

    /// Where the player stands, as the state has it.
    pub open spec fn position(&self) -> Position {
        Position { x: self.game_state.x, y: self.game_state.y, direction: self.game_state.direction }
    }

    /// Whether the player stands where the book builder opens.
    pub fn arrived(&self) -> (out: bool)
        ensures
            out == (self.game_state.x == BOOK_BUILDER_X && self.game_state.y == BOOK_BUILDER_Y),
    {
        self.game_state.x == BOOK_BUILDER_X && self.game_state.y == BOOK_BUILDER_Y
    }

    /// What the routine does once the map has been shown: it ends in the
    /// book builder where the player has arrived there, and waits for an
    /// action everywhere else.
    pub fn after_render(&self) -> (out: NextStep)
        ensures
            out == if self.game_state.x == BOOK_BUILDER_X && self.game_state.y == BOOK_BUILDER_Y {
                NextStep::End(InterfaceMode::BookBuilder)
            } else {
                NextStep::Wait
            },
    {
        if self.arrived() {
            NextStep::End(InterfaceMode::BookBuilder)
        } else {
            NextStep::Wait
        }
    }

    /// Takes an action of the player. A direction turns or moves them on
    /// the map; a change of size has the view fitted anew; anything else
    /// ends the walk, and the game goes on where it was.
    pub fn step(&mut self, action: NavigationAction) -> (out: NextStep)
        ensures
            final(self).position() == walked(
                old(self).position(),
                action,
                MAP_WIDTH as nat,
                MAP_HEIGHT as nat,
            ),
            final(self).game_state.player_id == old(self).game_state.player_id,
            final(self).game_state.interface_mode == old(self).game_state.interface_mode,
            final(self).game_state.current_epic == old(self).game_state.current_epic,
            final(self).game_state.current_stage == old(self).game_state.current_stage,
            final(self).game_state.total_play_time == old(self).game_state.total_play_time,
            final(self).game_state.created_at == old(self).game_state.created_at,
            final(self).game_state.updated_at == old(self).game_state.updated_at,
            out == match walk_outcome(action) {
                Walk::Continue => NextStep::Wait,
                Walk::Resize => NextStep::Refit,
                Walk::Leave => NextStep::End(InterfaceMode::WorldNavigation),
            },
    {
        let mut at: Position = Position {
            x: self.game_state.x,
            y: self.game_state.y,
            direction: self.game_state.direction,
        };
        let outcome: Walk = at.walk(action, MAP_WIDTH, MAP_HEIGHT);
        self.game_state.x = at.x;
        self.game_state.y = at.y;
        self.game_state.direction = at.direction;
        match outcome {
            Walk::Continue => NextStep::Wait,
            Walk::Resize => NextStep::Refit,
            Walk::Leave => NextStep::End(InterfaceMode::WorldNavigation),
        }
    }
}

} // verus!

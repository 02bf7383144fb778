//! Directions and the actions of the player on the map.

use crate::db::ColumnError;
use vstd::prelude::*;

verus! {

/// One of the four ways to face and to move.
#[derive(Clone, Copy, Debug, PartialEq, Eq, Structural)]
pub enum Direction {
    Up,
    Down,
    Left,
    Right,
}

impl Direction {
    /// The step along the x axis: columns grow to the right.
    pub open spec fn spec_dx(self) -> int {
        match self {
            Direction::Left => -1,
            Direction::Right => 1,
            _ => 0,
        }
    }

    /// The step along the y axis: rows grow downwards.
    pub open spec fn spec_dy(self) -> int {
        match self {
            Direction::Up => -1,
            Direction::Down => 1,
            _ => 0,
        }
    }

    /// The number under which a direction is stored.
    pub open spec fn code(self) -> int {
        match self {
            Direction::Up => 0,
            Direction::Down => 1,
            Direction::Left => 2,
            Direction::Right => 3,
        }
    }

    /// The step along the x axis.
    pub fn dx(&self) -> (step: isize)
        ensures
            step == self.spec_dx(),
    {
        match self {
            Direction::Left => -1,
            Direction::Right => 1,
            _ => 0,
        }
    }

    /// The step along the y axis.
    pub fn dy(&self) -> (step: isize)
        ensures
            step == self.spec_dy(),
    {
        match self {
            Direction::Up => -1,
            Direction::Down => 1,
            _ => 0,
        }
    }

    /// The number under which the direction is stored.
    pub fn to_sql(&self) -> (value: i64)
        ensures
            value == self.code(),
    {
        match self {
            Direction::Up => 0,
            Direction::Down => 1,
            Direction::Left => 2,
            Direction::Right => 3,
        }
    }

    /// Reads a stored number back; a number that stands for no direction
    /// is of an invalid type.
    pub fn column_result(value: i64) -> (out: Result<Direction, ColumnError>)
        ensures
            match out {
                Ok(direction) => direction.code() == value,
                Err(e) => e == ColumnError::InvalidType && !(0 <= value <= 3),
            },
    {
        match value {
            0 => Ok(Direction::Up),
            1 => Ok(Direction::Down),
            2 => Ok(Direction::Left),
            3 => Ok(Direction::Right),
            _ => Err(ColumnError::InvalidType),
        }
    }
}

/// Every direction is read back as it was stored.
pub proof fn lemma_direction_round_trip(direction: Direction)
    ensures
        0 <= direction.code() <= 3,
        forall|other: Direction| other.code() == direction.code() ==> other == direction,
{
}

/// A key as the world and the menus tell them apart.
#[derive(Clone, Copy, Debug, PartialEq, Eq, Structural)]
pub enum Key {
    Up,
    Down,
    Left,
    Right,
    Enter,
    Esc,
    Backspace,
    Char(char),
    Other,
}

/// What the player asks for while walking the map.
#[derive(Clone, Copy, Debug, PartialEq, Eq, Structural)]
pub enum NavigationAction {
    Up,
    Down,
    Left,
    Right,
    /// Look at what lies ahead.
    Inspect,
    /// Leave the map.
    Exit,
    /// The terminal changed its size.
    Resize,
    /// Nothing.
    Idle,
    FocusGained,
    FocusLost,
    /// A mouse event, at a column and a row.
    Mouse(u16, u16),
}

/// The direction that an action moves in, if it moves at all.
pub open spec fn spec_action_to_direction(action: NavigationAction) -> Option<Direction> {
    match action {
        NavigationAction::Up => Some(Direction::Up),
        NavigationAction::Down => Some(Direction::Down),
        NavigationAction::Left => Some(Direction::Left),
        NavigationAction::Right => Some(Direction::Right),
        _ => None,
    }
}

/// The direction that an action moves in, if it moves at all.
pub fn action_to_direction(action: NavigationAction) -> (out: Option<Direction>)
    ensures
        out == spec_action_to_direction(action),
{
    match action {
        NavigationAction::Up => Some(Direction::Up),
        NavigationAction::Down => Some(Direction::Down),
        NavigationAction::Left => Some(Direction::Left),
        NavigationAction::Right => Some(Direction::Right),
        _ => None,
    }
}

/// The action that a key asks for on the map. The arrows move, `x`
/// inspects and escape leaves; any other key asks for nothing and ends the
/// wait for a key.
pub open spec fn spec_key_action(key: Key) -> Option<NavigationAction> {
    match key {
        Key::Up => Some(NavigationAction::Up),
        Key::Down => Some(NavigationAction::Down),
        Key::Left => Some(NavigationAction::Left),
        Key::Right => Some(NavigationAction::Right),
        Key::Char(c) => if c == 'x' {
            Some(NavigationAction::Inspect)
        } else {
            None
        },
        Key::Esc => Some(NavigationAction::Exit),
        _ => None,
    }
}

/// The action that a key asks for on the map.
pub fn key_action(key: Key) -> (out: Option<NavigationAction>)
    ensures
        out == spec_key_action(key),
{
    match key {
        Key::Up => Some(NavigationAction::Up),
        Key::Down => Some(NavigationAction::Down),
        Key::Left => Some(NavigationAction::Left),
        Key::Right => Some(NavigationAction::Right),
        Key::Char(c) => if c == 'x' {
            Some(NavigationAction::Inspect)
        } else {
            None
        },
        Key::Esc => Some(NavigationAction::Exit),
        _ => None,
    }
}

/// Where the player stands and which way they face.
#[derive(Clone, Copy, Debug, PartialEq, Eq, Structural)]
pub struct Position {
    pub x: usize,
    pub y: usize,
    pub direction: Direction,
}

/// What follows an action on the map.
#[derive(Clone, Copy, Debug, PartialEq, Eq, Structural)]
pub enum Walk {
    /// The player stands where the new position says; the walk goes on.
    Continue,
    /// The view is to be fitted to the terminal anew; the walk goes on.
    Resize,
    /// The walk is over.
    Leave,
}

/// Whether a step in a direction stays on a map of the given size.
pub open spec fn can_step(at: Position, direction: Direction, width: nat, height: nat) -> bool {
    match direction {
        Direction::Up => at.y > 0,
        Direction::Down => at.y < height - 1,
        Direction::Left => at.x > 0,
        Direction::Right => at.x < width - 1,
    }
}

/// The position after the player asks to go in a direction: they turn
/// that way, and take a step where they faced that way before and the map
/// goes on.
pub open spec fn turned(at: Position, direction: Direction, width: nat, height: nat) -> Position {
    if at.direction == direction && can_step(at, direction, width, height) {
        Position {
            x: (at.x + direction.spec_dx()) as usize,
            y: (at.y + direction.spec_dy()) as usize,
            direction,
        }
    } else {
        Position { x: at.x, y: at.y, direction }
    }
}

/// The position after an action: only the four directions move or turn the
/// player.
pub open spec fn walked(at: Position, action: NavigationAction, width: nat, height: nat) -> Position {
    match spec_action_to_direction(action) {
        Some(direction) => turned(at, direction, width, height),
        None => at,
    }
}

/// What follows an action: the walk goes on after a direction and after a
/// change of size, and is over after anything else.
pub open spec fn walk_outcome(action: NavigationAction) -> Walk {
    match action {
        NavigationAction::Up | NavigationAction::Down | NavigationAction::Left
        | NavigationAction::Right => Walk::Continue,
        NavigationAction::Resize => Walk::Resize,
        _ => Walk::Leave,
    }
}

impl Position {
    /// Takes an action on a map of the given size, which must have a tile.
    pub fn walk(&mut self, action: NavigationAction, width: usize, height: usize) -> (out: Walk)
        requires
            width > 0,
            height > 0,
        ensures
            *final(self) == walked(*old(self), action, width as nat, height as nat),
            out == walk_outcome(action),
    {
        match action {
            NavigationAction::Up => {
                if self.y > 0 && self.direction == Direction::Up {
                    self.y = self.y - 1;
                }
                self.direction = Direction::Up;
                Walk::Continue
            },
            NavigationAction::Down => {
                if self.y < height - 1 && self.direction == Direction::Down {
                    self.y = self.y + 1;
                }
                self.direction = Direction::Down;
                Walk::Continue
            },
            NavigationAction::Left => {
                if self.x > 0 && self.direction == Direction::Left {
                    self.x = self.x - 1;
                }
                self.direction = Direction::Left;
                Walk::Continue
            },
            NavigationAction::Right => {
                if self.x < width - 1 && self.direction == Direction::Right {
                    self.x = self.x + 1;
                }
                self.direction = Direction::Right;
                Walk::Continue
            },
            NavigationAction::Resize => Walk::Resize,
            _ => Walk::Leave,
        }
    }
}

/// A player who stands on the map stays on it, whatever they do.
pub proof fn lemma_walk_stays_on_map(
    at: Position,
    action: NavigationAction,
    width: nat,
    height: nat,
)
    requires
        at.x < width,
        at.y < height,
    ensures
        walked(at, action, width, height).x < width,
        walked(at, action, width, height).y < height,
{
}

/// The block that stands for the player.
pub const BODY: char = '\u{2588}';

/// The picture of the player facing the way of an action: the body and,
/// where the action moves, an arrow head beside it.
pub open spec fn sprite(action: NavigationAction) -> Seq<char> {
    match action {
        NavigationAction::Up => seq!['\u{25b2}', '\n', ' ', BODY],
        NavigationAction::Down => seq![BODY, '\n', '\u{25bc}'],
        NavigationAction::Left => seq!['\u{25c0}', ' ', BODY],
        NavigationAction::Right => seq![BODY, ' ', '\u{25b6}'],
        _ => seq![BODY],
    }
}

/// The picture of the player facing the way of an action.
pub fn get_player_sprite(direction: &NavigationAction) -> (out: String)
    ensures
        out@ == sprite(*direction),
{
    proof {
        reveal_strlit("\u{25b2}\n \u{2588}");
        reveal_strlit("\u{2588}\n\u{25bc}");
        reveal_strlit("\u{25c0} \u{2588}");
        reveal_strlit("\u{2588} \u{25b6}");
        reveal_strlit("\u{2588}");
    }
    let text: &str = match direction {
        NavigationAction::Up => "\u{25b2}\n \u{2588}",
        NavigationAction::Down => "\u{2588}\n\u{25bc}",
        NavigationAction::Left => "\u{25c0} \u{2588}",
        NavigationAction::Right => "\u{2588} \u{25b6}",
        _ => "\u{2588}",
    };
    let out: String = String::from_str(text);
    assert(out@ =~= sprite(*direction));
    out
}

} // verus!

//! How far a player has come: where they stand in the story and on the map.

pub mod main_arc;

use crate::game_engine::InterfaceMode;
use crate::text::{decimal, from_chars, push_decimal, push_text};
use crate::world::navigation::Direction;
use chrono::NaiveDateTime;
use vstd::prelude::*;

verus! {

/// `chrono::NaiveDateTime`, a date and time of day without a time zone. The
/// game only carries such values from the clock to the save file and back,
/// and never looks inside.
#[verifier::external_type_specification]
#[verifier::external_body]
pub struct ExNaiveDateTime(chrono::NaiveDateTime);

/// `NaiveDateTime` is `Copy`, and its derived `clone` hands back the value
/// that it is given.
pub assume_specification[ <chrono::NaiveDateTime as Clone>::clone ](
    time: &chrono::NaiveDateTime,
) -> (out: chrono::NaiveDateTime)
    ensures
        out == *time,
;

/// A length of time as it is stored: in whole seconds, with the
/// nanoseconds beyond them kept while the game runs.
#[derive(Clone, Copy, Debug, PartialEq, Eq, Structural)]
pub struct SqlDuration {
    pub secs: u64,
    pub nanos: u32,
}

impl SqlDuration {
    /// The part below a second is less than a second.
    pub open spec fn wf(self) -> bool {
        self.nanos < 1_000_000_000
    }

    /// The whole seconds.
    pub fn as_secs(&self) -> (secs: u64)
        ensures
            secs == self.secs,
    {
        self.secs
    }

    /// A length of whole seconds.
    pub fn from_secs(secs: u64) -> (out: SqlDuration)
        ensures
            out.secs == secs,
            out.nanos == 0,
            out.wf(),
    {
        SqlDuration { secs, nanos: 0 }
    }

    /// The number under which the length is stored: its whole seconds, as
    /// a signed number of 64 bits. More seconds than such a number holds
    /// wrap around into the negative numbers.
    pub fn to_sql(&self) -> (value: i64)
        ensures
            value == if self.secs <= i64::MAX {
                self.secs as int
            } else {
                self.secs - 0x1_0000_0000_0000_0000
            },
    {
        let secs: u64 = self.secs;
        let value: i64 = secs as i64;
        assert(secs <= 0x7fff_ffff_ffff_ffffu64 ==> value as int == secs as int) by (bit_vector)
            requires
                value == secs as i64,
        ;
        assert(secs > 0x7fff_ffff_ffff_ffffu64 ==> value as int == secs as int
            - 0x1_0000_0000_0000_0000) by (bit_vector)
            requires
                value == secs as i64,
        ;
        value
    }

    /// Reads a stored number of seconds back. A negative number wraps
    /// around into the numbers that a signed number does not reach.
    pub fn column_result(value: i64) -> (out: SqlDuration)
        ensures
            out.secs == if value >= 0 {
                value as int
            } else {
                value + 0x1_0000_0000_0000_0000
            },
            out.nanos == 0,
    {
        let secs: u64 = value as u64;
        assert(value >= 0 ==> secs as int == value as int) by (bit_vector)
            requires
                secs == value as u64,
        ;
        assert(value < 0 ==> secs as int == value as int + 0x1_0000_0000_0000_0000) by (bit_vector)
            requires
                secs == value as u64,
        ;
        SqlDuration { secs, nanos: 0 }
    }
}

/// The state of the game of one player.
#[derive(Clone, Debug)]
pub struct GameState {
    pub player_id: i32,
    pub interface_mode: InterfaceMode,
    /// The larger arc of the story.
    pub current_epic: String,
    /// The stage of that arc.
    pub current_stage: String,
    pub x: usize,
    pub y: usize,
    /// The way the player last moved.
    pub direction: Direction,
    pub total_play_time: SqlDuration,
    pub created_at: NaiveDateTime,
    pub updated_at: NaiveDateTime,
}

/// The line that sums a state up.
pub open spec fn state_line(epic: Seq<char>, stage: Seq<char>, x: nat, y: nat) -> Seq<char> {
    "current_epic:"@ + epic + ", current_stage:"@ + stage + " -- x:"@ + decimal(x) + ", y:"@
        + decimal(y)
}

impl GameState {
    /// The state of a player who has just begun: in dialogue, at the
    /// creation of their character in the introduction, at the origin of
    /// the map and facing up, with no time played.
    pub fn new(player_id: i32, now: NaiveDateTime) -> (state: GameState)
        ensures
            state.player_id == player_id,
            state.interface_mode == InterfaceMode::Dialogue,
            state.current_epic@ == "intro"@,
            state.current_stage@ == "character_creation"@,
            state.x == 0,
            state.y == 0,
            state.direction == Direction::Up,
            state.total_play_time == (SqlDuration { secs: 0, nanos: 0 }),
            state.created_at == now,
            state.updated_at == now,
    {
        GameState {
            interface_mode: InterfaceMode::Dialogue,
            current_epic: String::from_str("intro"),
            current_stage: String::from_str("character_creation"),
            player_id,
            x: 0,
            y: 0,
            direction: Direction::Up,
            total_play_time: SqlDuration { secs: 0, nanos: 0 },
            created_at: now,
            updated_at: now,
        }
    }

    /// The line that sums the state up.
    pub fn to_string(&self) -> (out: String)
        ensures
            out@ == state_line(
                self.current_epic@,
                self.current_stage@,
                self.x as nat,
                self.y as nat,
            ),
    {
        let mut line: Vec<char> = Vec::new();
        push_text(&mut line, "current_epic:");
        push_text(&mut line, self.current_epic.as_str());
        push_text(&mut line, ", current_stage:");
        push_text(&mut line, self.current_stage.as_str());
        push_text(&mut line, " -- x:");
        push_decimal(&mut line, self.x as u64);
        push_text(&mut line, ", y:");
        push_decimal(&mut line, self.y as u64);
        assert(line@ =~= state_line(
            self.current_epic@,
            self.current_stage@,
            self.x as nat,
            self.y as nat,
        ));
        from_chars(&line)
    }
}

} // verus!

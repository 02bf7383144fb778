//! The viewport: the part of the map that fits on the terminal, around the
//! player.

use crate::world::map::WorldMap;
use crate::world::navigation::Direction;
use vstd::prelude::*;

verus! {

/// The size of the part of the map that is shown.
#[derive(Clone, Copy, Debug, PartialEq, Eq, Structural)]
pub struct Viewport {
    pub width: usize,
    pub height: usize,
}

/// The rows of the terminal that are kept free below the map.
pub const HEIGHT_ADJUSTMENT: usize = 2;

/// No viewport is wider or higher than this.
pub const MAX_SIZE: usize = 2000;

/// The size of the terminal where it cannot be asked.
pub const DEFAULT_TERMINAL: (u16, u16) = (80, 24);

/// The viewport for a terminal of the given columns and rows.
pub open spec fn fitted(columns: u16, rows: u16) -> Viewport {
    Viewport {
        width: if columns < MAX_SIZE {
            columns as usize
        } else {
            MAX_SIZE
        },
        height: (if rows < MAX_SIZE {
            rows as int
        } else {
            MAX_SIZE as int
        } - HEIGHT_ADJUSTMENT) as usize,
    }
}

/// The first column or row that is shown: half a viewport before the
/// player, and no less than zero.
pub open spec fn view_start(player: usize, extent: usize) -> int {
    if player >= extent / 2 {
        player - extent / 2
    } else {
        0
    }
}

/// The column or row at which the view ends: a viewport after its start,
/// and no further than the map goes.
pub open spec fn view_end(player: usize, extent: usize, limit: nat) -> int {
    if view_start(player, extent) + extent <= limit {
        view_start(player, extent) + extent
    } else {
        limit as int
    }
}

fn fit(columns: u16, rows: u16) -> (out: Viewport)
    requires
        rows >= HEIGHT_ADJUSTMENT,
    ensures
        out == fitted(columns, rows),
{
    let width: usize = if (columns as usize) < MAX_SIZE {
        columns as usize
    } else {
        MAX_SIZE
    };
    let height: usize = if (rows as usize) < MAX_SIZE {
        rows as usize
    } else {
        MAX_SIZE
    };
    Viewport { width, height: height - HEIGHT_ADJUSTMENT }
}

fn start_of(player: usize, extent: usize) -> (out: usize)
    ensures
        out == view_start(player, extent),
{
    if player >= extent / 2 {
        player - extent / 2
    } else {
        0
    }
}

fn end_of(start: usize, extent: usize, limit: usize) -> (out: usize)
    ensures
        out == if start + extent <= limit {
            start + extent
        } else {
            limit as int
        },
{
    if limit >= start && limit - start >= extent {
        start + extent
    } else {
        limit
    }
}

impl Viewport {
    /// The viewport for a terminal of the given size, and for one of 80
    /// columns and 24 rows where the size is not known. The terminal must
    /// have the rows that are kept free.
    pub fn new(terminal: Option<(u16, u16)>) -> (out: Viewport)
        requires
            terminal matches Some(size) ==> size.1 >= HEIGHT_ADJUSTMENT,
        ensures
            out == match terminal {
                Some(size) => fitted(size.0, size.1),
                None => fitted(DEFAULT_TERMINAL.0, DEFAULT_TERMINAL.1),
            },
    {
        match terminal {
            Some(size) => fit(size.0, size.1),
            None => fit(DEFAULT_TERMINAL.0, DEFAULT_TERMINAL.1),
        }
    }

    /// Fits the viewport to the terminal anew. Where the size of the
    /// terminal is not known the viewport stays as it is.
    pub fn update_size(&mut self, terminal: Option<(u16, u16)>)
        requires
            terminal matches Some(size) ==> size.1 >= HEIGHT_ADJUSTMENT,
        ensures
            *final(self) == match terminal {
                Some(size) => fitted(size.0, size.1),
                None => *old(self),
            },
    {
        match terminal {
            Some(size) => {
                *self = fit(size.0, size.1);
            },
            None => {},
        }
    }

    /// The rows of the map that are shown, with the player on them: as
    /// many columns and rows as the viewport has, from half a viewport
    /// before the player, as far as the map goes.
    pub fn render(
        &self,
        map: &WorldMap,
        player_x: usize,
        player_y: usize,
        player_direction: Direction,
    ) -> (rows: Vec<String>)
        requires
            map.wf(),
        ensures
            rows@.len() == if view_end(player_y, self.height, map.spec_height()) > view_start(
                player_y,
                self.height,
            ) {
                view_end(player_y, self.height, map.spec_height()) - view_start(
                    player_y,
                    self.height,
                )
            } else {
                0
            },
            forall|j: int|
                0 <= j < rows@.len() ==> (#[trigger] rows@[j])@ == map.shown_row(
                    view_start(player_y, self.height) + j,
                    view_start(player_x, self.width),
                    view_end(player_x, self.width, map.spec_width()),
                    player_x as int,
                    player_y as int,
                    player_direction,
                ),
    {
        let start_x: usize = start_of(player_x, self.width);
        let start_y: usize = start_of(player_y, self.height);
        let end_x: usize = end_of(start_x, self.width, map.get_width());
        let end_y: usize = end_of(start_y, self.height, map.get_height());
        map.show(start_x, end_x, start_y, end_y, player_x, player_y, player_direction)
    }
}

} // verus!

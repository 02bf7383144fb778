//! Tiles and the grid they lie on.

use crate::text::from_chars;
use crate::world::navigation::Direction;
use vstd::prelude::*;

verus! {

/// What a tile of the map holds.
#[derive(Clone, Copy, Debug, PartialEq, Eq, Structural)]
pub enum TileType {
    /// The player's body.
    Player,
    /// The tile that the player faces.
    PlayerFocus,
    Empty,
    Wall,
    Water,
    Grass,
}

/// The character that stands for a tile. The tile that the player faces is
/// an arrow head in the player's direction, and `@` where no direction is
/// given.
pub open spec fn tile_char(tile: TileType, player_direction: Option<Direction>) -> char {
    match tile {
        TileType::Player => '\u{2588}',
        TileType::PlayerFocus => match player_direction {
            Some(Direction::Up) => '\u{25b2}',
            Some(Direction::Down) => '\u{25bc}',
            Some(Direction::Left) => '\u{25c0}',
            Some(Direction::Right) => '\u{25b6}',
            None => '@',
        },
        TileType::Empty => ' ',
        TileType::Wall => '#',
        TileType::Water => '~',
        TileType::Grass => '.',
    }
}

/// The character that stands for a tile.
pub fn tile_to_char(tile: TileType, player_direction: Option<Direction>) -> (c: char)
    ensures
        c == tile_char(tile, player_direction),
{
    match tile {
        TileType::Player => '\u{2588}',
        TileType::PlayerFocus => match player_direction {
            Some(Direction::Up) => '\u{25b2}',
            Some(Direction::Down) => '\u{25bc}',
            Some(Direction::Left) => '\u{25c0}',
            Some(Direction::Right) => '\u{25b6}',
            _ => '@',
        },
        TileType::Empty => ' ',
        TileType::Wall => '#',
        TileType::Water => '~',
        TileType::Grass => '.',
    }
}

impl TileType {
    /// The number under which a tile is written to a map file.
    pub open spec fn code(self) -> u8 {
        match self {
            TileType::Player => 0,
            TileType::PlayerFocus => 1,
            TileType::Empty => 2,
            TileType::Wall => 3,
            TileType::Water => 4,
            TileType::Grass => 5,
        }
    }

    /// The tile that a number of a map file stands for: a number that
    /// stands for none reads as an empty tile.
    pub open spec fn of_code(n: u8) -> TileType {
        match n {
            0 => TileType::Player,
            1 => TileType::PlayerFocus,
            2 => TileType::Empty,
            3 => TileType::Wall,
            4 => TileType::Water,
            5 => TileType::Grass,
            _ => TileType::Empty,
        }
    }

    /// The number under which the tile is written to a map file.
    pub fn to_code(&self) -> (n: u8)
        ensures
            n == self.code(),
    {
        match self {
            TileType::Player => 0,
            TileType::PlayerFocus => 1,
            TileType::Empty => 2,
            TileType::Wall => 3,
            TileType::Water => 4,
            TileType::Grass => 5,
        }
    }
}

impl From<u8> for TileType {
    fn from(n: u8) -> (tile: TileType) {
        match n {
            0 => TileType::Player,
            1 => TileType::PlayerFocus,
            2 => TileType::Empty,
            3 => TileType::Wall,
            4 => TileType::Water,
            5 => TileType::Grass,
            _ => TileType::Empty,
        }
    }
}

impl vstd::std_specs::convert::FromSpecImpl<u8> for TileType {
    open spec fn obeys_from_spec() -> bool {
        true
    }

    open spec fn from_spec(n: u8) -> TileType {
        TileType::of_code(n)
    }
}

/// Every tile is read back from its number.
pub proof fn lemma_tile_round_trip(tile: TileType)
    ensures
        TileType::of_code(tile.code()) == tile,
{
}

/// Whether a tile is the one that the player faces: the next one in their
/// direction.
pub open spec fn is_faced(x: int, y: int, player_x: int, player_y: int, direction: Direction) -> bool {
    x == player_x + direction.spec_dx() && y == player_y + direction.spec_dy()
}

/// Tells whether a tile is the one that the player faces.
pub fn faces(x: usize, y: usize, player_x: usize, player_y: usize, direction: Direction) -> (out:
    bool)
    ensures
        out == is_faced(x as int, y as int, player_x as int, player_y as int, direction),
{
    match direction {
        Direction::Up => x == player_x && player_y > 0 && y == player_y - 1,
        Direction::Down => x == player_x && player_y < usize::MAX && y == player_y + 1,
        Direction::Left => y == player_y && player_x > 0 && x == player_x - 1,
        Direction::Right => y == player_y && player_x < usize::MAX && x == player_x + 1,
    }
}

/// Rows of empty tiles: as many as the height, each as long as the width.
pub fn empty_rows(width: usize, height: usize) -> (tiles: Vec<Vec<TileType>>)
    ensures
        tiles@.len() == height,
        forall|j: int| 0 <= j < height ==> (#[trigger] tiles@[j])@.len() == width,
        forall|j: int, i: int|
            0 <= j < height && 0 <= i < width ==> (#[trigger] tiles@[j]@[i]) == TileType::Empty,
{
    let mut tiles: Vec<Vec<TileType>> = Vec::new();
    let mut y: usize = 0;
    while y < height
        invariant
            y <= height,
            tiles@.len() == y,
            forall|j: int| 0 <= j < y ==> (#[trigger] tiles@[j])@.len() == width,
            forall|j: int, i: int|
                0 <= j < y && 0 <= i < width ==> (#[trigger] tiles@[j]@[i]) == TileType::Empty,
        decreases height - y,
    {
        let mut row: Vec<TileType> = Vec::new();
        let mut x: usize = 0;
        while x < width
            invariant
                x <= width,
                row@.len() == x,
                forall|i: int| 0 <= i < x ==> (#[trigger] row@[i]) == TileType::Empty,
            decreases width - x,
        {
            row.push(TileType::Empty);
            x = x + 1;
        }
        tiles.push(row);
        y = y + 1;
    }
    tiles
}

/// A map is a grid of tiles, row by row from the top.
pub struct WorldMap {
    width: usize,
    height: usize,
    tiles: Vec<Vec<TileType>>,
}

impl WorldMap {
    /// The width that the map was made with.
    pub closed spec fn spec_width(&self) -> nat {
        self.width as nat
    }

    /// The height that the map was made with.
    pub closed spec fn spec_height(&self) -> nat {
        self.height as nat
    }

    /// The rows of tiles.
    pub closed spec fn rows(&self) -> Seq<Seq<TileType>> {
        Seq::new(self.tiles@.len(), |y: int| self.tiles@[y]@)
    }

    /// A map is well formed when it has as many rows as it is high and
    /// every row is as long as the map is wide.
    pub open spec fn wf(&self) -> bool {
        &&& self.rows().len() == self.spec_height()
        &&& forall|y: int| 0 <= y < self.rows().len() ==> (#[trigger] self.rows()[y]).len() == self.spec_width()
    }

    /// The tile at a column and a row: outside the map every tile is empty.
    pub open spec fn tile_at(&self, x: int, y: int) -> TileType {
        if 0 <= x < self.spec_width() && 0 <= y < self.spec_height() {
            self.rows()[y][x]
        } else {
            TileType::Empty
        }
    }

    /// A map of the given size with every tile empty.
    pub fn new(width: usize, height: usize) -> (map: WorldMap)
        ensures
            map.wf(),
            map.spec_width() == width,
            map.spec_height() == height,
            forall|x: int, y: int| #[trigger] map.tile_at(x, y) == TileType::Empty,
    {
        let tiles: Vec<Vec<TileType>> = empty_rows(width, height);
        WorldMap { width, height, tiles }
    }

    /// A map of the given rows. It is as high as there are rows and as wide
    /// as the first row is long; it is well formed where all rows are as
    /// long as the first.
    pub fn new_with_tiles(tiles: Vec<Vec<TileType>>) -> (map: WorldMap)
        ensures
            map.rows() == Seq::new(tiles@.len(), |y: int| tiles@[y]@),
            map.spec_height() == tiles@.len(),
            map.spec_width() == if tiles@.len() > 0 {
                tiles@[0]@.len()
            } else {
                0
            },
    {
        let height: usize = tiles.len();
        let width: usize = if height > 0 {
            tiles[0].len()
        } else {
            0
        };
        WorldMap { width, height, tiles }
    }

    /// Whether the map is well formed: whether it has as many rows as it
    /// is high, each as long as the map is wide.
    pub fn is_rectangular(&self) -> (out: bool)
        ensures
            out == self.wf(),
    {
        if self.tiles.len() != self.height {
            return false;
        }
        let mut y: usize = 0;
        while y < self.tiles.len()
            invariant
                y <= self.tiles@.len(),
                self.tiles@.len() == self.height,
                forall|j: int| 0 <= j < y ==> (#[trigger] self.rows()[j]).len() == self.spec_width(),
            decreases self.tiles@.len() - y,
        {
            if self.tiles[y].len() != self.width {
                assert(self.rows()[y as int].len() != self.spec_width());
                return false;
            }
            assert(self.rows()[y as int] == self.tiles@[y as int]@);
            y = y + 1;
        }
        true
    }

    /// The width of the map.
    pub fn get_width(&self) -> (width: usize)
        ensures
            width == self.spec_width(),
    {
        self.width
    }

    /// The height of the map.
    pub fn get_height(&self) -> (height: usize)
        ensures
            height == self.spec_height(),
    {
        self.height
    }

    /// The rows of the map.
    pub fn get_tiles_ref(&self) -> (tiles: &Vec<Vec<TileType>>)
        ensures
            self.rows() == Seq::new(tiles@.len(), |y: int| tiles@[y]@),
    {
        &self.tiles
    }

    /// Puts a tile at a column and a row. Outside the map nothing changes.
    pub fn set_tile(&mut self, x: usize, y: usize, tile: TileType)
        requires
            old(self).wf(),
        ensures
            final(self).wf(),
            final(self).spec_width() == old(self).spec_width(),
            final(self).spec_height() == old(self).spec_height(),
            final(self).rows() == if x < old(self).spec_width() && y < old(self).spec_height() {
                old(self).rows().update(y as int, old(self).rows()[y as int].update(x as int, tile))
            } else {
                old(self).rows()
            },
            forall|a: int, b: int|
                #[trigger] final(self).tile_at(a, b) == if a == x && b == y && x < old(
                    self,
                ).spec_width() && y < old(self).spec_height() {
                    tile
                } else {
                    old(self).tile_at(a, b)
                },
    {
        if x < self.width && y < self.height {
            assert(self.rows()[y as int].len() == self.spec_width());
            self.tiles[y][x] = tile;
            assert(self.rows() =~= old(self).rows().update(
                y as int,
                old(self).rows()[y as int].update(x as int, tile),
            ));
        }
    }

    /// The tile that is shown at a column and a row: the player where they
    /// stand, the mark of their direction on the tile they face, and the
    /// tile of the map everywhere else.
    pub open spec fn shown_tile(
        &self,
        x: int,
        y: int,
        player_x: int,
        player_y: int,
        direction: Direction,
    ) -> TileType {
        if x == player_x && y == player_y {
            TileType::Player
        } else if is_faced(x, y, player_x, player_y, direction) {
            TileType::PlayerFocus
        } else {
            self.tile_at(x, y)
        }
    }

    /// A row of the map as it is shown, from one column up to another.
    pub open spec fn shown_row(
        &self,
        y: int,
        from_x: int,
        to_x: int,
        player_x: int,
        player_y: int,
        direction: Direction,
    ) -> Seq<char> {
        Seq::new(
            if to_x > from_x {
                (to_x - from_x) as nat
            } else {
                0
            },
            |i: int|
                tile_char(
                    self.shown_tile(from_x + i, y, player_x, player_y, direction),
                    Some(direction),
                ),
        )
    }

    /// The rows of a part of the map as they are shown, with the player on
    /// them: the rows from `from_y` up to `to_y`, and of each the columns
    /// from `from_x` up to `to_x`.
    pub fn show(
        &self,
        from_x: usize,
        to_x: usize,
        from_y: usize,
        to_y: usize,
        player_x: usize,
        player_y: usize,
        direction: Direction,
    ) -> (rows: Vec<String>)
        requires
            self.wf(),
        ensures
            rows@.len() == if to_y > from_y {
                to_y - from_y
            } else {
                0
            },
            forall|j: int|
                0 <= j < rows@.len() ==> (#[trigger] rows@[j])@ == self.shown_row(
                    from_y + j,
                    from_x as int,
                    to_x as int,
                    player_x as int,
                    player_y as int,
                    direction,
                ),
    {
        let mut rows: Vec<String> = Vec::new();
        let mut y: usize = from_y;
        while y < to_y
            invariant
                self.wf(),
                from_y <= y,
                to_y > from_y ==> y <= to_y,
                to_y <= from_y ==> y == from_y,
                rows@.len() == y - from_y,
                forall|j: int|
                    0 <= j < rows@.len() ==> (#[trigger] rows@[j])@ == self.shown_row(
                        from_y + j,
                        from_x as int,
                        to_x as int,
                        player_x as int,
                        player_y as int,
                        direction,
                    ),
            decreases to_y - y,
        {
            let mut row: Vec<char> = Vec::new();
            let mut x: usize = from_x;
            while x < to_x
                invariant
                    self.wf(),
                    from_x <= x,
                    to_x > from_x ==> x <= to_x,
                    to_x <= from_x ==> x == from_x,
                    row@.len() == x - from_x,
                    forall|i: int|
                        0 <= i < row@.len() ==> #[trigger] row@[i] == tile_char(
                            self.shown_tile(
                                from_x + i,
                                y as int,
                                player_x as int,
                                player_y as int,
                                direction,
                            ),
                            Some(direction),
                        ),
                decreases to_x - x,
            {
                let tile: TileType = if x == player_x && y == player_y {
                    TileType::Player
                } else if faces(x, y, player_x, player_y, direction) {
                    TileType::PlayerFocus
                } else {
                    self.get_tile(x, y)
                };
                row.push(tile_to_char(tile, Some(direction)));
                x = x + 1;
            }
            assert(row@ =~= self.shown_row(
                y as int,
                from_x as int,
                to_x as int,
                player_x as int,
                player_y as int,
                direction,
            ));
            rows.push(from_chars(&row));
            y = y + 1;
        }
        rows
    }

    /// The whole map as it is shown, row by row, with the player on it.
    pub fn print(&self, player_x: usize, player_y: usize, player_direction: Direction) -> (rows:
        Vec<String>)
        requires
            self.wf(),
        ensures
            rows@.len() == self.spec_height(),
            forall|j: int|
                0 <= j < rows@.len() ==> (#[trigger] rows@[j])@ == self.shown_row(
                    j,
                    0,
                    self.spec_width() as int,
                    player_x as int,
                    player_y as int,
                    player_direction,
                ),
    {
        self.show(0, self.width, 0, self.height, player_x, player_y, player_direction)
    }

    /// The tile at a column and a row: outside the map every tile is empty.
    pub fn get_tile(&self, x: usize, y: usize) -> (tile: TileType)
        requires
            self.wf(),
        ensures
            tile == self.tile_at(x as int, y as int),
    {
        if x < self.width && y < self.height {
            assert(self.rows()[y as int].len() == self.spec_width());
            self.tiles[y][x]
        } else {
            TileType::Empty
        }
    }
}

} // verus!

//! Maps as they are written to files, and maps that are made up for
//! trying things out.
//!
//! A map file holds one line for each row of the map, and in each line the
//! numbers of the tiles with commas between.

use crate::text::{
    decimal, from_chars, parse_number, parsed_number, push_decimal, split, split_chars, to_chars,
};
use crate::world::map::{empty_rows, TileType, WorldMap};
use vstd::prelude::*;

verus! {

/// The tile that a field of a map file stands for: the tile of its number,
/// and an empty tile where it is no number of eight bits.
pub open spec fn field_tile(field: Seq<char>) -> TileType {
    match parsed_number(field) {
        Some(n) => if n <= 255 {
            TileType::of_code(n as u8)
        } else {
            TileType::Empty
        },
        None => TileType::Empty,
    }
}

/// The tiles that a line of a map file stands for.
pub open spec fn line_tiles(line: Seq<char>) -> Seq<TileType> {
    Seq::new(split(line, ',').len(), |i: int| field_tile(split(line, ',')[i]))
}

/// The line that a row of tiles is written as.
pub open spec fn row_line(row: Seq<TileType>) -> Seq<char>
    decreases row.len(),
{
    if row.len() == 0 {
        Seq::empty()
    } else if row.len() == 1 {
        decimal(row[0].code() as nat)
    } else {
        row_line(row.drop_last()) + seq![','] + decimal(row.last().code() as nat)
    }
}

/// Reads the tiles of a line of a map file.
pub fn parse_map_row(line: &str) -> (row: Vec<TileType>)
    ensures
        row@ == line_tiles(line@),
{
    let chars: Vec<char> = to_chars(line);
    let fields: Vec<Vec<char>> = split_chars(&chars, ',');
    let mut row: Vec<TileType> = Vec::new();
    let mut i: usize = 0;
    while i < fields.len()
        invariant
            i <= fields@.len(),
            fields@.len() == split(line@, ',').len(),
            forall|j: int| 0 <= j < fields@.len() ==> (#[trigger] fields@[j])@ == split(line@, ',')[j],
            row@.len() == i,
            forall|j: int| 0 <= j < i ==> #[trigger] row@[j] == field_tile(split(line@, ',')[j]),
        decreases fields@.len() - i,
    {
        let tile: TileType = match parse_number(&fields[i], 255) {
            Some(n) => TileType::from(n as u8),
            None => TileType::Empty,
        };
        row.push(tile);
        i = i + 1;
    }
    assert(row@ =~= line_tiles(line@));
    row
}

/// Makes a map of the lines of a map file.
pub fn load_map_from_file(lines: &Vec<String>) -> (map: WorldMap)
    ensures
        map.rows() == Seq::new(lines@.len(), |y: int| line_tiles(lines@[y]@)),
        map.spec_height() == lines@.len(),
        map.spec_width() == if lines@.len() > 0 {
            line_tiles(lines@[0]@).len()
        } else {
            0
        },
{
    let mut tiles: Vec<Vec<TileType>> = Vec::new();
    let mut y: usize = 0;
    while y < lines.len()
        invariant
            y <= lines@.len(),
            tiles@.len() == y,
            forall|j: int| 0 <= j < y ==> (#[trigger] tiles@[j])@ == line_tiles(lines@[j]@),
        decreases lines@.len() - y,
    {
        tiles.push(parse_map_row(lines[y].as_str()));
        y = y + 1;
    }
    let map: WorldMap = WorldMap::new_with_tiles(tiles);
    assert(map.rows() =~= Seq::new(lines@.len(), |y: int| line_tiles(lines@[y]@)));
    map
}

/// Writes a row of tiles as a line of a map file.
pub fn format_map_row(row: &Vec<TileType>) -> (line: String)
    ensures
        line@ == row_line(row@),
{
    let mut line: Vec<char> = Vec::new();
    let mut i: usize = 0;
    assert(row@.take(0) =~= Seq::<TileType>::empty());
    while i < row.len()
        invariant
            i <= row@.len(),
            line@ == row_line(row@.take(i as int)),
        decreases row@.len() - i,
    {
        let ghost before: Seq<char> = line@;
        if i > 0 {
            line.push(',');
        }
        push_decimal(&mut line, row[i].to_code() as u64);
        proof {
            assert(row@.take(i + 1).drop_last() =~= row@.take(i as int));
            assert(row@.take(i + 1).last() == row@[i as int]);
            if i == 0 {
                assert(line@ =~= decimal(row@[0].code() as nat));
            } else {
                assert(line@ =~= before + seq![','] + decimal(row@[i as int].code() as nat));
            }
        }
        i = i + 1;
    }
    assert(row@.take(row@.len() as int) =~= row@);
    from_chars(&line)
}

/// Writes a map as the lines of a map file, one for each row.
pub fn save_map_to_file(map: &WorldMap) -> (lines: Vec<String>)
    ensures
        lines@.len() == map.rows().len(),
        forall|y: int| 0 <= y < lines@.len() ==> (#[trigger] lines@[y])@ == row_line(map.rows()[y]),
{
    let tiles: &Vec<Vec<TileType>> = map.get_tiles_ref();
    let mut lines: Vec<String> = Vec::new();
    let mut y: usize = 0;
    while y < tiles.len()
        invariant
            y <= tiles@.len(),
            map.rows() == Seq::new(tiles@.len(), |j: int| tiles@[j]@),
            lines@.len() == y,
            forall|j: int| 0 <= j < y ==> (#[trigger] lines@[j])@ == row_line(map.rows()[j]),
        decreases tiles@.len() - y,
    {
        assert(map.rows()[y as int] == tiles@[y as int]@);
        lines.push(format_map_row(&tiles[y]));
        y = y + 1;
    }
    lines
}

/// The fields of a written row: one for each tile, holding its number.
proof fn lemma_row_fields(row: Seq<TileType>)
    requires
        row.len() > 0,
    ensures
        split(row_line(row), ',').len() == row.len(),
        forall|i: int|
            0 <= i < row.len() ==> #[trigger] split(row_line(row), ',')[i] == decimal(
                row[i].code() as nat,
            ),
    decreases row.len(),
{
    let digit: Seq<char> = decimal(row.last().code() as nat);
    assert(digit.len() == 1 && digit[0] != ',');
    let line: Seq<char> = row_line(row);
    if row.len() == 1 {
        assert(line =~= digit);
        assert(line.drop_last() =~= Seq::<char>::empty());
        assert(split(line.drop_last(), ',') =~= seq![Seq::<char>::empty()]);
        assert(split(line, ',') =~= seq![digit]);
    } else {
        let before: Seq<TileType> = row.drop_last();
        lemma_row_fields(before);
        let head: Seq<char> = row_line(before);
        assert(line =~= head + seq![','] + digit);
        assert(line.drop_last() =~= head + seq![',']);
        assert(line.drop_last().drop_last() =~= head);
        assert(split(line.drop_last(), ',') =~= split(head, ',').push(Seq::<char>::empty()));
        assert(split(line, ',') =~= split(head, ',').push(digit));
        assert forall|i: int| 0 <= i < row.len() implies #[trigger] split(line, ',')[i] == decimal(
            row[i].code() as nat,
        ) by {
            if i < row.len() - 1 {
                assert(before[i] == row[i]);
            }
        }
    }
}

/// A row that is written to a map file is read back as it was, as long as
/// it holds a tile at all: an empty row is written as an empty line, which
/// reads as one empty tile.
pub proof fn lemma_map_row_round_trip(row: Seq<TileType>)
    requires
        row.len() > 0,
    ensures
        line_tiles(row_line(row)) == row,
{
    lemma_row_fields(row);
    let fields: Seq<Seq<char>> = split(row_line(row), ',');
    assert forall|i: int| 0 <= i < row.len() implies field_tile(#[trigger] fields[i]) == row[i] by {
        let field: Seq<char> = decimal(row[i].code() as nat);
        assert(field.len() == 1);
        assert(crate::text::unsigned(field) =~= field);
        assert(field.drop_last() =~= Seq::<char>::empty());
        assert(crate::text::digits_value(field) == row[i].code()) by {
            reveal_with_fuel(crate::text::digits_value, 2);
        }
    }
    assert(line_tiles(row_line(row)) =~= row);
}

/// The tile of the small demo map at a column and a row: a room of ten by
/// ten tiles with a wall around it, a patch of grass in the upper left
/// corner and a pool beside it.
pub open spec fn small_demo_tile(x: int, y: int) -> TileType {
    if !(0 <= x < 10 && 0 <= y < 10) {
        TileType::Empty
    } else if x == 3 && y == 3 {
        TileType::Water
    } else if 1 <= x <= 2 && 1 <= y <= 2 {
        TileType::Grass
    } else if x == 0 || x == 9 || y == 0 || y == 9 {
        TileType::Wall
    } else {
        TileType::Empty
    }
}

/// The tile of the demo map of the given size at a column and a row.
///
/// A wall runs around the map. From a quarter to three quarters of the
/// height a corridor two tiles wide runs down between walls in columns 10
/// and 13. At a quarter of the height a second corridor, two tiles high and
/// four tiles long, lies across the middle of the map between a wall above
/// and a wall below; where the two cross, the second is on top.
pub open spec fn demo_tile(x: int, y: int, width: int, height: int) -> TileType {
    let top = height / 4;
    let bottom = height * 3 / 4;
    let middle = width / 2;
    if !(0 <= x < width && 0 <= y < height) {
        TileType::Empty
    } else if middle - 2 <= x < middle + 2 && (y == top || y == top + 3) {
        TileType::Wall
    } else if middle - 2 <= x < middle + 2 && (y == top + 1 || y == top + 2) {
        TileType::Empty
    } else if top <= y < bottom && (x == 10 || x == 13) {
        TileType::Wall
    } else if top <= y < bottom && (x == 11 || x == 12) {
        TileType::Empty
    } else if x == 0 || x == width - 1 || y == 0 || y == height - 1 {
        TileType::Wall
    } else {
        TileType::Empty
    }
}

/// The small demo map.
pub fn generate_small_demo_map() -> (map: WorldMap)
    ensures
        map.wf(),
        map.spec_width() == 10,
        map.spec_height() == 10,
        forall|x: int, y: int| #[trigger] map.tile_at(x, y) == small_demo_tile(x, y),
{
    let mut map: WorldMap = WorldMap::new(10, 10);

    // Walls around the border.
    let mut x: usize = 0;
    while x < 10
        invariant
            x <= 10,
            map.wf(),
            map.spec_width() == 10,
            map.spec_height() == 10,
            forall|a: int, b: int|
                #[trigger] map.tile_at(a, b) == if 0 <= a < 10 && 0 <= b < 10 && ((a < x && (b == 0
                    || b == 9)) || (b < x && (a == 0 || a == 9))) {
                    TileType::Wall
                } else {
                    TileType::Empty
                },
        decreases 10 - x,
    {
        map.set_tile(x, 0, TileType::Wall);
        map.set_tile(x, 9, TileType::Wall);
        map.set_tile(0, x, TileType::Wall);
        map.set_tile(9, x, TileType::Wall);
        x = x + 1;
    }

    // Some grass.
    map.set_tile(1, 1, TileType::Grass);
    map.set_tile(1, 2, TileType::Grass);
    map.set_tile(2, 1, TileType::Grass);
    map.set_tile(2, 2, TileType::Grass);

    // Water.
    map.set_tile(3, 3, TileType::Water);

    map
}

/// The demo map while it is being made: after the walls along the top and
/// the bottom have come as far as column `across`, and the walls along the
/// sides as far as row `down`.
pub open spec fn walled_tile(x: int, y: int, width: int, height: int, across: int, down: int) -> TileType {
    if 0 <= x < width && 0 <= y < height && ((x < across && (y == 0 || y == height - 1)) || (y
        < down && (x == 0 || x == width - 1))) {
        TileType::Wall
    } else {
        TileType::Empty
    }
}

/// The demo map while it is being made: with its walls, and with the first
/// corridor as far as row `down`.
pub open spec fn first_path_tile(x: int, y: int, width: int, height: int, down: int) -> TileType {
    if 0 <= x < width && height / 4 <= y < down && (x == 10 || x == 13) {
        TileType::Wall
    } else if 0 <= x < width && height / 4 <= y < down && (x == 11 || x == 12) {
        TileType::Empty
    } else {
        walled_tile(x, y, width, height, width, height)
    }
}

/// The demo map while it is being made: with its walls and the first
/// corridor, and with the second corridor as far as column `across`.
pub open spec fn second_path_tile(x: int, y: int, width: int, height: int, across: int) -> TileType {
    let top = height / 4;
    if width / 2 - 2 <= x < across && (y == top || y == top + 3) {
        TileType::Wall
    } else if width / 2 - 2 <= x < across && (y == top + 1 || y == top + 2) {
        TileType::Empty
    } else {
        first_path_tile(x, y, width, height, height * 3 / 4)
    }
}

/// The demo map of the given size. The map must be wide enough for the
/// first corridor and high enough for the second.
pub fn generate_demo_map(width: usize, height: usize) -> (map: WorldMap)
    requires
        width >= 14,
        height >= 5,
        height * 3 <= usize::MAX,
    ensures
        map.wf(),
        map.spec_width() == width,
        map.spec_height() == height,
        forall|x: int, y: int|
            #[trigger] map.tile_at(x, y) == demo_tile(x, y, width as int, height as int),
{
    let mut tiles: Vec<Vec<TileType>> = empty_rows(width, height);

    // Walls around the edges.
    let mut x: usize = 0;
    while x < width
        invariant
            x <= width,
            width >= 14,
            height >= 5,
            tiles@.len() == height,
            forall|j: int| 0 <= j < height ==> (#[trigger] tiles@[j])@.len() == width,
            forall|j: int, i: int|
                0 <= j < height && 0 <= i < width ==> (#[trigger] tiles@[j]@[i]) == walled_tile(
                    i,
                    j,
                    width as int,
                    height as int,
                    x as int,
                    0,
                ),
        decreases width - x,
    {
        tiles[0][x] = TileType::Wall;
        tiles[height - 1][x] = TileType::Wall;
        x = x + 1;
    }
    let mut y: usize = 0;
    while y < height
        invariant
            y <= height,
            width >= 14,
            height >= 5,
            tiles@.len() == height,
            forall|j: int| 0 <= j < height ==> (#[trigger] tiles@[j])@.len() == width,
            forall|j: int, i: int|
                0 <= j < height && 0 <= i < width ==> (#[trigger] tiles@[j]@[i]) == walled_tile(
                    i,
                    j,
                    width as int,
                    height as int,
                    width as int,
                    y as int,
                ),
        decreases height - y,
    {
        tiles[y][0] = TileType::Wall;
        tiles[y][width - 1] = TileType::Wall;
        y = y + 1;
    }

    // A corridor down the map with walls on both sides.
    let path_start_y: usize = height / 4;
    let path_end_y: usize = height * 3 / 4;
    let mut y: usize = path_start_y;
    while y < path_end_y
        invariant
            path_start_y <= y <= path_end_y,
            path_start_y == height / 4,
            path_end_y == height * 3 / 4,
            path_end_y < height,
            width >= 14,
            height >= 5,
            tiles@.len() == height,
            forall|j: int| 0 <= j < height ==> (#[trigger] tiles@[j])@.len() == width,
            forall|j: int, i: int|
                0 <= j < height && 0 <= i < width ==> (#[trigger] tiles@[j]@[i]) == first_path_tile(
                    i,
                    j,
                    width as int,
                    height as int,
                    y as int,
                ),
        decreases path_end_y - y,
    {
        tiles[y][10] = TileType::Wall;
        tiles[y][11] = TileType::Empty;
        tiles[y][12] = TileType::Empty;
        tiles[y][13] = TileType::Wall;
        y = y + 1;
    }

    // A second corridor across the middle.
    let second_path_x: usize = width / 2;
    let mut x: usize = second_path_x - 2;
    while x < second_path_x + 2
        invariant
            second_path_x - 2 <= x <= second_path_x + 2,
            second_path_x == width / 2,
            path_start_y == height / 4,
            width >= 14,
            height >= 5,
            height * 3 <= usize::MAX,
            tiles@.len() == height,
            forall|j: int| 0 <= j < height ==> (#[trigger] tiles@[j])@.len() == width,
            forall|j: int, i: int|
                0 <= j < height && 0 <= i < width ==> (#[trigger] tiles@[j]@[i])
                    == second_path_tile(i, j, width as int, height as int, x as int),
        decreases second_path_x + 2 - x,
    {
        tiles[path_start_y][x] = TileType::Wall;
        tiles[path_start_y + 1][x] = TileType::Empty;
        tiles[path_start_y + 2][x] = TileType::Empty;
        tiles[path_start_y + 3][x] = TileType::Wall;
        x = x + 1;
    }

    let map: WorldMap = WorldMap::new_with_tiles(tiles);
    assert forall|x: int, y: int|
        #[trigger] map.tile_at(x, y) == demo_tile(x, y, width as int, height as int) by {
        if 0 <= x < width && 0 <= y < height {
            assert(map.rows()[y] == tiles@[y]@);
            assert(tiles@[y]@[x] == second_path_tile(
                x,
                y,
                width as int,
                height as int,
                width / 2 + 2,
            ));
        }
    }
    map
}

} // verus!

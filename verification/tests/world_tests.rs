use tbg::db::ColumnError;
use tbg::world::map::{empty_rows, faces, tile_to_char, TileType, WorldMap};
use tbg::world::map_file_utils::{
    format_map_row, generate_demo_map, generate_small_demo_map, load_map_from_file,
    parse_map_row, save_map_to_file,
};
use tbg::world::navigation::{
    action_to_direction, get_player_sprite, key_action, Direction, Key, NavigationAction,
    Position, Walk,
};
use tbg::world::viewport::Viewport;

#[test]
fn test_create_map() {}

#[test]
fn test_load_map_from_file() {}

#[test]
fn test_save_map_to_file() {}

#[test]
fn navigation_test_create_viewport() {}

#[test]
fn viewport_test_create_viewport() {}

#[test]
fn tiles_have_their_characters() {
    assert_eq!(tile_to_char(TileType::Player, None), '█');
    assert_eq!(tile_to_char(TileType::Player, Some(Direction::Left)), '█');
    assert_eq!(tile_to_char(TileType::PlayerFocus, Some(Direction::Up)), '▲');
    assert_eq!(tile_to_char(TileType::PlayerFocus, Some(Direction::Down)), '▼');
    assert_eq!(tile_to_char(TileType::PlayerFocus, Some(Direction::Left)), '◀');
    assert_eq!(tile_to_char(TileType::PlayerFocus, Some(Direction::Right)), '▶');
    assert_eq!(tile_to_char(TileType::PlayerFocus, None), '@');
    assert_eq!(tile_to_char(TileType::Empty, None), ' ');
    assert_eq!(tile_to_char(TileType::Wall, None), '#');
    assert_eq!(tile_to_char(TileType::Water, None), '~');
    assert_eq!(tile_to_char(TileType::Grass, None), '.');
}

#[test]
fn tiles_are_read_from_their_numbers() {
    assert_eq!(TileType::from(0), TileType::Player);
    assert_eq!(TileType::from(1), TileType::PlayerFocus);
    assert_eq!(TileType::from(2), TileType::Empty);
    assert_eq!(TileType::from(3), TileType::Wall);
    assert_eq!(TileType::from(4), TileType::Water);
    assert_eq!(TileType::from(5), TileType::Grass);
    assert_eq!(TileType::from(6), TileType::Empty);
    assert_eq!(TileType::from(255), TileType::Empty);
    for n in 0..6u8 {
        assert_eq!(TileType::from(n).to_code(), n);
    }
}

#[test]
fn new_map_is_empty() {
    let map = WorldMap::new(4, 3);
    assert_eq!(map.get_width(), 4);
    assert_eq!(map.get_height(), 3);
    assert_eq!(map.get_tiles_ref().len(), 3);
    for row in map.get_tiles_ref() {
        assert_eq!(row, &vec![TileType::Empty; 4]);
    }
    assert_eq!(empty_rows(2, 1), vec![vec![TileType::Empty; 2]]);
    let none = WorldMap::new(0, 0);
    assert_eq!(none.get_width(), 0);
    assert_eq!(none.get_height(), 0);
    assert_eq!(none.get_tile(0, 0), TileType::Empty);
}

#[test]
fn map_of_rows_takes_its_size_from_them() {
    let map = WorldMap::new_with_tiles(vec![
        vec![TileType::Wall, TileType::Grass, TileType::Water],
        vec![TileType::Empty, TileType::Wall, TileType::Grass],
    ]);
    assert_eq!(map.get_width(), 3);
    assert_eq!(map.get_height(), 2);
    assert_eq!(map.get_tile(0, 0), TileType::Wall);
    assert_eq!(map.get_tile(2, 0), TileType::Water);
    assert_eq!(map.get_tile(1, 1), TileType::Wall);
    let none = WorldMap::new_with_tiles(Vec::new());
    assert_eq!(none.get_width(), 0);
    assert_eq!(none.get_height(), 0);
}

#[test]
fn tiles_are_set_and_read_inside_the_map_only() {
    let mut map = WorldMap::new(3, 2);
    map.set_tile(1, 1, TileType::Water);
    map.set_tile(2, 0, TileType::Wall);
    assert_eq!(map.get_tile(1, 1), TileType::Water);
    assert_eq!(map.get_tile(2, 0), TileType::Wall);
    assert_eq!(map.get_tile(0, 0), TileType::Empty);
    // Outside the map nothing is set and everything reads as empty.
    map.set_tile(3, 0, TileType::Wall);
    map.set_tile(0, 2, TileType::Wall);
    assert_eq!(map.get_tile(3, 0), TileType::Empty);
    assert_eq!(map.get_tile(0, 2), TileType::Empty);
    assert_eq!(
        map.get_tiles_ref(),
        &vec![
            vec![TileType::Empty, TileType::Empty, TileType::Wall],
            vec![TileType::Empty, TileType::Water, TileType::Empty],
        ]
    );
}

fn picture(map: &WorldMap) -> Vec<String> {
    map.get_tiles_ref()
        .iter()
        .map(|row| row.iter().map(|t| tile_to_char(*t, None)).collect())
        .collect()
}

#[test]
fn small_demo_map_is_a_walled_room() {
    let map = generate_small_demo_map();
    assert_eq!(map.get_width(), 10);
    assert_eq!(map.get_height(), 10);
    assert_eq!(
        picture(&map),
        vec![
            "##########",
            "#..      #",
            "#..      #",
            "#  ~     #",
            "#        #",
            "#        #",
            "#        #",
            "#        #",
            "#        #",
            "##########",
        ]
    );
}

#[test]
fn demo_map_has_its_walls_and_corridors() {
    let map = generate_demo_map(20, 8);
    assert_eq!(map.get_width(), 20);
    assert_eq!(map.get_height(), 8);
    assert_eq!(
        picture(&map),
        vec![
            "####################",
            "#                  #",
            "#       #### #     #",
            "#            #     #",
            "#            #     #",
            "#       #### #     #",
            "#                  #",
            "####################",
        ]
    );
    let least = generate_demo_map(14, 5);
    assert_eq!(
        picture(&least),
        vec![
            "##############",
            "#    #### #  #",
            "#         #  #",
            "#            #",
            "##############",
        ]
    );
    let large = generate_demo_map(500, 100);
    assert_eq!(large.get_tile(0, 50), TileType::Wall);
    assert_eq!(large.get_tile(499, 50), TileType::Wall);
    assert_eq!(large.get_tile(10, 25), TileType::Wall);
    assert_eq!(large.get_tile(11, 25), TileType::Empty);
    assert_eq!(large.get_tile(13, 74), TileType::Wall);
    assert_eq!(large.get_tile(13, 75), TileType::Empty);
    assert_eq!(large.get_tile(248, 25), TileType::Wall);
    assert_eq!(large.get_tile(251, 28), TileType::Wall);
    assert_eq!(large.get_tile(252, 28), TileType::Empty);
    assert_eq!(large.get_tile(250, 26), TileType::Empty);
}

#[test]
fn map_rows_are_read_from_lines() {
    assert_eq!(
        parse_map_row("3,5,4,2,0,1"),
        vec![
            TileType::Wall,
            TileType::Grass,
            TileType::Water,
            TileType::Empty,
            TileType::Player,
            TileType::PlayerFocus
        ]
    );
    // What is no number of eight bits, or the number of no tile, is empty.
    assert_eq!(
        parse_map_row("3,,x,9,256,-1, 3,+3,003,3 ,99999999999999999999999"),
        vec![
            TileType::Wall,
            TileType::Empty,
            TileType::Empty,
            TileType::Empty,
            TileType::Empty,
            TileType::Empty,
            TileType::Empty,
            TileType::Wall,
            TileType::Wall,
            TileType::Empty,
            TileType::Empty,
        ]
    );
    assert_eq!(parse_map_row(""), vec![TileType::Empty]);
    assert_eq!(parse_map_row(","), vec![TileType::Empty, TileType::Empty]);
    // The same fields as the standard library reads them.
    for field in ["3", "", "x", "9", "256", "-1", " 3", "+3", "003", "3 ", "+", "++3", "0", "5"] {
        let wanted = match field.parse::<u8>() {
            Ok(n) => TileType::from(n),
            Err(_) => TileType::Empty,
        };
        assert_eq!(parse_map_row(field), vec![wanted]);
    }
}

#[test]
fn map_is_made_of_the_lines_of_a_file() {
    let lines = vec!["3,3,3".to_string(), "3,5,3".to_string(), "3,3,3".to_string()];
    let map = load_map_from_file(&lines);
    assert_eq!(map.get_width(), 3);
    assert_eq!(map.get_height(), 3);
    assert_eq!(picture(&map), vec!["###", "#.#", "###"]);
    let none = load_map_from_file(&Vec::new());
    assert_eq!(none.get_height(), 0);
    assert_eq!(none.get_width(), 0);
}

#[test]
fn map_is_written_as_lines_and_read_back() {
    assert_eq!(format_map_row(&vec![TileType::Wall, TileType::Grass, TileType::Player]), "3,5,0");
    assert_eq!(format_map_row(&vec![TileType::Water]), "4");
    assert_eq!(format_map_row(&Vec::new()), "");
    let map = generate_small_demo_map();
    let lines = save_map_to_file(&map);
    assert_eq!(lines.len(), 10);
    assert_eq!(lines[0], "3,3,3,3,3,3,3,3,3,3");
    assert_eq!(lines[1], "3,5,5,2,2,2,2,2,2,3");
    assert_eq!(lines[3], "3,2,2,4,2,2,2,2,2,3");
    let back = load_map_from_file(&lines);
    assert_eq!(back.get_tiles_ref(), map.get_tiles_ref());
    assert_eq!(back.get_width(), 10);
    assert_eq!(back.get_height(), 10);
}

#[test]
fn directions_step_along_the_axes() {
    assert_eq!((Direction::Up.dx(), Direction::Up.dy()), (0, -1));
    assert_eq!((Direction::Down.dx(), Direction::Down.dy()), (0, 1));
    assert_eq!((Direction::Left.dx(), Direction::Left.dy()), (-1, 0));
    assert_eq!((Direction::Right.dx(), Direction::Right.dy()), (1, 0));
}

#[test]
fn directions_are_stored_as_numbers() {
    let all = [Direction::Up, Direction::Down, Direction::Left, Direction::Right];
    for (n, d) in all.iter().enumerate() {
        assert_eq!(d.to_sql(), n as i64);
        assert_eq!(Direction::column_result(n as i64), Ok(*d));
    }
    assert_eq!(Direction::column_result(4), Err(ColumnError::InvalidType));
    assert_eq!(Direction::column_result(-1), Err(ColumnError::InvalidType));
}

#[test]
fn actions_and_keys() {
    assert_eq!(action_to_direction(NavigationAction::Up), Some(Direction::Up));
    assert_eq!(action_to_direction(NavigationAction::Down), Some(Direction::Down));
    assert_eq!(action_to_direction(NavigationAction::Left), Some(Direction::Left));
    assert_eq!(action_to_direction(NavigationAction::Right), Some(Direction::Right));
    for other in [
        NavigationAction::Inspect,
        NavigationAction::Exit,
        NavigationAction::Resize,
        NavigationAction::Idle,
        NavigationAction::FocusGained,
        NavigationAction::FocusLost,
        NavigationAction::Mouse(1, 2),
    ] {
        assert_eq!(action_to_direction(other), None);
    }
    assert_eq!(key_action(Key::Up), Some(NavigationAction::Up));
    assert_eq!(key_action(Key::Down), Some(NavigationAction::Down));
    assert_eq!(key_action(Key::Left), Some(NavigationAction::Left));
    assert_eq!(key_action(Key::Right), Some(NavigationAction::Right));
    assert_eq!(key_action(Key::Char('x')), Some(NavigationAction::Inspect));
    assert_eq!(key_action(Key::Esc), Some(NavigationAction::Exit));
    assert_eq!(key_action(Key::Char('y')), None);
    assert_eq!(key_action(Key::Enter), None);
    assert_eq!(key_action(Key::Other), None);
}

#[test]
fn player_sprites() {
    assert_eq!(get_player_sprite(&NavigationAction::Up), "▲\n █");
    assert_eq!(get_player_sprite(&NavigationAction::Down), "█\n▼");
    assert_eq!(get_player_sprite(&NavigationAction::Left), "◀ █");
    assert_eq!(get_player_sprite(&NavigationAction::Right), "█ ▶");
    assert_eq!(get_player_sprite(&NavigationAction::Inspect), "█");
}

#[test]
fn player_turns_first_and_then_steps() {
    let mut at = Position { x: 5, y: 5, direction: Direction::Up };
    assert_eq!(at.walk(NavigationAction::Down, 500, 100), Walk::Continue);
    assert_eq!(at, Position { x: 5, y: 5, direction: Direction::Down });
    assert_eq!(at.walk(NavigationAction::Down, 500, 100), Walk::Continue);
    assert_eq!(at, Position { x: 5, y: 6, direction: Direction::Down });
    at.walk(NavigationAction::Right, 500, 100);
    assert_eq!(at, Position { x: 5, y: 6, direction: Direction::Right });
    at.walk(NavigationAction::Right, 500, 100);
    assert_eq!(at, Position { x: 6, y: 6, direction: Direction::Right });
    at.walk(NavigationAction::Left, 500, 100);
    at.walk(NavigationAction::Left, 500, 100);
    assert_eq!(at, Position { x: 5, y: 6, direction: Direction::Left });
    at.walk(NavigationAction::Up, 500, 100);
    at.walk(NavigationAction::Up, 500, 100);
    assert_eq!(at, Position { x: 5, y: 5, direction: Direction::Up });
}

#[test]
fn player_stays_on_the_map() {
    let mut at = Position { x: 0, y: 0, direction: Direction::Up };
    at.walk(NavigationAction::Up, 3, 2);
    assert_eq!(at, Position { x: 0, y: 0, direction: Direction::Up });
    at.walk(NavigationAction::Left, 3, 2);
    at.walk(NavigationAction::Left, 3, 2);
    assert_eq!(at, Position { x: 0, y: 0, direction: Direction::Left });
    let mut at = Position { x: 2, y: 1, direction: Direction::Down };
    at.walk(NavigationAction::Down, 3, 2);
    assert_eq!(at, Position { x: 2, y: 1, direction: Direction::Down });
    at.walk(NavigationAction::Right, 3, 2);
    at.walk(NavigationAction::Right, 3, 2);
    assert_eq!(at, Position { x: 2, y: 1, direction: Direction::Right });
}

#[test]
fn other_actions_resize_or_leave() {
    let mut at = Position { x: 1, y: 1, direction: Direction::Up };
    assert_eq!(at.walk(NavigationAction::Resize, 3, 3), Walk::Resize);
    assert_eq!(at.walk(NavigationAction::Exit, 3, 3), Walk::Leave);
    assert_eq!(at.walk(NavigationAction::Inspect, 3, 3), Walk::Leave);
    assert_eq!(at.walk(NavigationAction::Idle, 3, 3), Walk::Leave);
    assert_eq!(at.walk(NavigationAction::Mouse(0, 0), 3, 3), Walk::Leave);
    assert_eq!(at, Position { x: 1, y: 1, direction: Direction::Up });
}

#[test]
fn faced_tile_is_the_next_in_the_direction() {
    assert!(faces(5, 4, 5, 5, Direction::Up));
    assert!(faces(5, 6, 5, 5, Direction::Down));
    assert!(faces(4, 5, 5, 5, Direction::Left));
    assert!(faces(6, 5, 5, 5, Direction::Right));
    assert!(!faces(5, 5, 5, 5, Direction::Up));
    assert!(!faces(6, 4, 5, 5, Direction::Up));
    assert!(!faces(0, 0, 0, 0, Direction::Up));
    assert!(!faces(0, 0, 0, 0, Direction::Left));
    assert!(!faces(0, 0, usize::MAX, 0, Direction::Right));
}

#[test]
fn viewport_fits_the_terminal() {
    assert_eq!(Viewport::new(Some((120, 40))), Viewport { width: 120, height: 38 });
    assert_eq!(Viewport::new(None), Viewport { width: 80, height: 22 });
    assert_eq!(Viewport::new(Some((3000, 5000))), Viewport { width: 2000, height: 1998 });
    assert_eq!(Viewport::new(Some((0, 2))), Viewport { width: 0, height: 0 });
    let mut v = Viewport::new(None);
    v.update_size(Some((100, 30)));
    assert_eq!(v, Viewport { width: 100, height: 28 });
    v.update_size(None);
    assert_eq!(v, Viewport { width: 100, height: 28 });
    v.update_size(Some((65535, 65535)));
    assert_eq!(v, Viewport { width: 2000, height: 1998 });
}

#[test]
fn viewport_shows_the_map_around_the_player() {
    let map = generate_small_demo_map();
    let view = Viewport { width: 6, height: 4 };
    let rows = view.render(&map, 4, 4, Direction::Right);
    assert_eq!(rows, vec!["..    ", "  ~   ", "   █▶ ", "      "]);
    // At the edge the view starts with the map.
    let rows = view.render(&map, 1, 1, Direction::Up);
    assert_eq!(rows, vec!["#▲####", "#█.   ", "#..   ", "#  ~  "]);
    // Towards the far edge the view ends with the map.
    let rows = view.render(&map, 9, 9, Direction::Left);
    assert_eq!(rows, vec!["   #", "   #", "##◀█"]);
    // A viewport that is larger than the map shows all of it.
    let all = Viewport { width: 40, height: 40 };
    let rows = all.render(&map, 5, 5, Direction::Down);
    assert_eq!(rows.len(), 10);
    assert_eq!(rows[0], "##########");
    assert_eq!(rows[5], "#    █   #");
    assert_eq!(rows[6], "#    ▼   #");
    // A player far outside the map sees nothing of it.
    assert!(view.render(&map, 100, 100, Direction::Up).is_empty());
    let rows = view.render(&map, 100, 3, Direction::Up);
    assert_eq!(rows, vec!["", "", "", ""]);
}

#[test]
fn whole_map_is_shown_with_the_player() {
    let mut map = WorldMap::new(3, 2);
    map.set_tile(0, 0, TileType::Wall);
    map.set_tile(2, 1, TileType::Grass);
    assert_eq!(map.print(1, 1, Direction::Up), vec!["#▲ ", " █."]);
    assert_eq!(map.print(1, 1, Direction::Right), vec!["#  ", " █▶"]);
    assert_eq!(map.print(0, 0, Direction::Left), vec!["█  ", "  ."]);
    assert_eq!(map.show(1, 3, 0, 1, 9, 9, Direction::Up), vec!["  "]);
}

#[test]
fn ragged_maps_are_told_apart() {
    assert!(WorldMap::new(3, 2).is_rectangular());
    assert!(WorldMap::new(0, 0).is_rectangular());
    assert!(generate_small_demo_map().is_rectangular());
    let ragged = WorldMap::new_with_tiles(vec![vec![TileType::Wall; 3], vec![TileType::Wall; 2]]);
    assert!(!ragged.is_rectangular());
    assert_eq!(ragged.get_width(), 3);
    assert_eq!(ragged.get_height(), 2);
    let read = load_map_from_file(&vec!["3,3".to_string(), "3".to_string()]);
    assert!(!read.is_rectangular());
    let empty_first = WorldMap::new_with_tiles(vec![Vec::new(), vec![TileType::Wall]]);
    assert!(!empty_first.is_rectangular());
}

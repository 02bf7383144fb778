use std::str::FromStr;
use tbg::db::save::get_save_path;
use tbg::db::{ColumnError, DEFAULT_DB, PLAYER_TABLE, SAVE_DIR};
use tbg::game_engine::game_engine::{
    finish_character_creation, gender_options, height_options, in_character_creation,
    leads_to_tutorial,
};
use tbg::game_engine::game_event::GameEvent;
use tbg::game_engine::interactions::methods::menu_select::{menu_select, MenuStep};
use tbg::game_engine::routines::battle::BattleRoutine;
use tbg::game_engine::routines::book_builder::BookBuilderRoutine;
use tbg::game_engine::routines::book_tutorial::BookTutorialRoutine;
use tbg::game_engine::routines::dialogue::{DialogueRoutine, Prompt};
use tbg::game_engine::routines::title_menu::TitleMenuRoutine;
use tbg::game_engine::routines::world_navigation::{NextStep, WorldNavigationRoutine};
use tbg::game_engine::InterfaceMode;
use tbg::models::dialogue::character_type::CharacterType;
use tbg::models::dialogue::dialogue::{
    process_dialogue_text, responses_found, substitute_placeholders, Dialogue,
};
use tbg::models::dialogue::dialogue_response::DialogueResponse;
use tbg::models::game_state::main_arc::MainArc;
use tbg::models::game_state::{GameState, SqlDuration};
use tbg::models::non_player_character::non_player_character::NPC;
use tbg::models::player::background::Background;
use tbg::models::player::gender::{Gender, GenderParseError};
use tbg::models::player::height::Height;
use tbg::models::player::player::{seed_from_digest, Player};
use tbg::pattern::Capture;
use tbg::world::navigation::{Direction, Key, NavigationAction};

fn noon() -> chrono::NaiveDateTime {
    chrono::NaiveDate::from_ymd_opt(2024, 5, 17).unwrap().and_hms_opt(12, 0, 0).unwrap()
}

#[test]
fn test_create_npc() {
    let npc = NPC::new("Test NPC".to_string(), Gender::Male, noon());
    assert_eq!(npc.name, "Test NPC");
    assert_eq!(npc.gender, Gender::Male);
}

#[test]
fn player_test_create_player() {
    let player = Player::new("Test Player".to_string(), Gender::Male, Height::Average, noon());
    assert_eq!(player.name, "Test Player");
    assert_eq!(player.gender, Gender::Male);
    assert_eq!(player.gender.to_db_string(), "male");
}

#[test]
fn new_player_is_undetermined() {
    let player = Player::new("Ann".to_string(), Gender::Female, Height::Tall, noon());
    assert_eq!(player.id, 0);
    assert_eq!(player.height, Height::Tall);
    assert_eq!(player.background, Background::Undetermined);
    assert_eq!(player.main_arc, MainArc::Undetermined);
    assert_eq!(player.created_at, noon());
    assert_eq!(player.updated_at, noon());
    let npc = NPC::new("Narrator".to_string(), Gender::Male, noon());
    assert_eq!(npc.id, 0);
    assert_eq!(npc.created_at, noon());
    assert_eq!(npc.updated_at, noon());
}

#[test]
fn seed_is_the_start_of_the_digest() {
    assert_eq!(
        Player::generate_seed("Alice", "female", 3, "Farmer", 1700000000),
        2042736173504016506
    );
    assert_eq!(Player::generate_seed("Zoë", "male", 0, "", 0), 12344232332260743501);
    assert!(
        Player::generate_seed("Alice", "female", 3, "Farmer", 1700000000)
            != Player::generate_seed("Alice", "female", 3, "Farmer", 1700000001)
    );
}

#[test]
fn seed_reads_eight_bytes_lowest_first() {
    let digest: Vec<u8> = (1..=32).collect();
    assert_eq!(seed_from_digest(&digest), 0x0807060504030201);
    assert_eq!(seed_from_digest(&vec![0xff; 8]), u64::MAX);
    assert_eq!(seed_from_digest(&vec![0, 0, 0, 0, 0, 0, 0, 0x80, 9]), 0x8000000000000000);
    assert_eq!(seed_from_digest(&vec![1, 0, 0, 0, 0, 0, 0, 0]), 1);
}

#[test]
fn gender_is_written_and_read() {
    assert_eq!(Gender::Male.to_db_string(), "male");
    assert_eq!(Gender::Female.to_db_string(), "female");
    assert_eq!(Gender::Unspecified.to_db_string(), "unspecified");
    assert_eq!(Gender::from_db_string("male"), Gender::Male);
    assert_eq!(Gender::from_db_string("female"), Gender::Female);
    assert_eq!(Gender::from_db_string("unspecified"), Gender::Unspecified);
    assert_eq!(Gender::from_db_string("Male"), Gender::Unspecified);
    assert_eq!(Gender::from_db_string(""), Gender::Unspecified);
    assert_eq!(Gender::from_string("Male"), Gender::Male);
    assert_eq!(Gender::from_string("Male").to_db_string(), "male");
    assert_eq!(Gender::from_string("Female"), Gender::Female);
    assert_eq!(Gender::from_string("Choose not to specify"), Gender::Unspecified);
    assert_eq!(Gender::from_string("ddnvalid"), Gender::Unspecified);
    assert_eq!(Gender::from_string("Invalid"), Gender::Unspecified);
    assert_eq!(Gender::from_string("male"), Gender::Unspecified);
    assert_eq!(Gender::Male.to_string(), "Male");
    assert_eq!(Gender::Female.to_string(), "Female");
    assert_eq!(Gender::Unspecified.to_string(), "Unspecified");
    assert_eq!(Gender::Unspecified.to_choice_string(), "Choose not to specify");
    for g in [Gender::Male, Gender::Female, Gender::Unspecified] {
        assert_eq!(Gender::from_db_string(g.to_db_string()), g);
        assert_eq!(Gender::from_string(&g.to_choice_string()), g);
        assert_eq!(Gender::column_result(g.to_sql()), Ok(g));
    }
    assert_eq!(Gender::Male.to_sql(), 0);
    assert_eq!(Gender::Female.to_sql(), 1);
    assert_eq!(Gender::Unspecified.to_sql(), 2);
    assert_eq!(Gender::column_result(3), Err(ColumnError::InvalidType));
    assert_eq!(Gender::column_result(-1), Err(ColumnError::InvalidType));
}

#[test]
fn gender_is_parsed_whatever_the_case() {
    assert_eq!(Gender::from_str("male").unwrap(), Gender::Male);
    assert!(Gender::from_str("invalid").is_err());
    assert_eq!(Gender::parse("  MALE \n").unwrap(), Gender::Male);
    assert_eq!(Gender::parse("Female").unwrap(), Gender::Female);
    assert_eq!(Gender::parse("\tUnSpecified").unwrap(), Gender::Unspecified);
    assert_eq!("female".parse::<Gender>().unwrap(), Gender::Female);
    match Gender::parse("  Other Thing ") {
        Err(GenderParseError::InvalidGender(text)) => assert_eq!(text, "other thing"),
        Ok(_) => panic!("parsed"),
    }
    match Gender::parse("") {
        Err(GenderParseError::InvalidGender(text)) => assert_eq!(text, ""),
        Ok(_) => panic!("parsed"),
    }
    assert!(Gender::parse("ma le").is_err());
}

#[test]
fn heights_are_stored_and_named() {
    let all = [Height::VeryShort, Height::Short, Height::Average, Height::Tall, Height::VeryTall];
    let names = ["Very Short", "Short", "Average", "Tall", "Very Tall"];
    for (n, h) in all.iter().enumerate() {
        assert_eq!(h.to_sql(), n as i64);
        assert_eq!(Height::column_result(n as i64), Ok(*h));
        assert_eq!(h.to_string(), names[n]);
    }
    assert_eq!(Height::column_result(5), Err(ColumnError::InvalidType));
    assert_eq!(Height::column_result(-3), Err(ColumnError::InvalidType));
}

#[test]
fn backgrounds_are_stored() {
    let all = [
        Background::Undetermined,
        Background::Farmer,
        Background::Solider,
        Background::Trader,
        Background::Politician,
        Background::Craftsman,
    ];
    for (n, b) in all.iter().enumerate() {
        assert_eq!(Background::column_result(n as i64), Ok(*b));
    }
    assert_eq!(Background::Undetermined.to_sql(), 0);
    assert_eq!(Background::Farmer.to_sql(), 1);
    assert_eq!(Background::Solider.to_sql(), 2);
    assert_eq!(Background::Trader.to_sql(), 3);
    assert_eq!(Background::Politician.to_sql(), 4);
    // A craftsman is stored under the number of a politician.
    assert_eq!(Background::Craftsman.to_sql(), 4);
    assert_eq!(Background::column_result(Background::Craftsman.to_sql()), Ok(Background::Politician));
    assert_eq!(Background::column_result(6), Err(ColumnError::InvalidType));
}

#[test]
fn arcs_and_modes_are_stored() {
    let arcs = [
        MainArc::Undetermined,
        MainArc::ThomasMoss,
        MainArc::RachelRamsayer,
        MainArc::LaureliDuval,
        MainArc::GeneParker,
    ];
    for (n, a) in arcs.iter().enumerate() {
        assert_eq!(a.to_sql(), n as i64);
        assert_eq!(MainArc::column_result(n as i64), Ok(*a));
    }
    assert_eq!(MainArc::column_result(5), Err(ColumnError::InvalidType));
    let modes = [
        InterfaceMode::Dialogue,
        InterfaceMode::WorldNavigation,
        InterfaceMode::Battle,
        InterfaceMode::BookBuilder,
    ];
    for (n, m) in modes.iter().enumerate() {
        assert_eq!(m.to_sql(), n as i64);
        assert_eq!(InterfaceMode::column_result(n as i64), Ok(*m));
    }
    assert_eq!(InterfaceMode::column_result(4), Err(ColumnError::InvalidType));
    assert_eq!(InterfaceMode::column_result(i64::MIN), Err(ColumnError::InvalidType));
}

#[test]
fn character_types_are_named() {
    assert_eq!(CharacterType::from_str("player"), Some(CharacterType::Player));
    assert_eq!(
        CharacterType::from_str("non_player_character"),
        Some(CharacterType::NonPlayerCharacter)
    );
    assert_eq!(CharacterType::from_str("npc"), None);
    assert_eq!(CharacterType::from_str(""), None);
    assert_eq!(CharacterType::Player.to_string(), "player");
    assert_eq!(CharacterType::NonPlayerCharacter.to_string(), "non_player_character");
    assert_eq!(CharacterType::Player.to_sql(), "player");
    assert_eq!(CharacterType::NonPlayerCharacter.to_sql(), "non_player_character");
    assert_eq!(CharacterType::column_result("player"), Ok(CharacterType::Player));
    assert_eq!(
        CharacterType::column_result("non_player_character"),
        Ok(CharacterType::NonPlayerCharacter)
    );
    assert_eq!(CharacterType::column_result("Player"), Err(ColumnError::OutOfRange(-1)));
}

#[test]
fn durations_are_stored_in_seconds() {
    let d = SqlDuration::from_secs(90);
    assert_eq!(d, SqlDuration { secs: 90, nanos: 0 });
    assert_eq!(d.as_secs(), 90);
    assert_eq!(d.to_sql(), 90);
    assert_eq!(SqlDuration { secs: 7, nanos: 999_999_999 }.as_secs(), 7);
    assert_eq!(SqlDuration { secs: 7, nanos: 999_999_999 }.to_sql(), 7);
    assert_eq!(SqlDuration::column_result(3600), SqlDuration::from_secs(3600));
    assert_eq!(SqlDuration::column_result(0).as_secs(), 0);
    assert_eq!(SqlDuration::column_result(-1).as_secs(), u64::MAX);
    assert_eq!(SqlDuration::from_secs(u64::MAX).to_sql(), -1);
}

#[test]
fn new_game_state_begins_the_story() {
    let state = GameState::new(7, noon());
    assert_eq!(state.player_id, 7);
    assert_eq!(state.interface_mode, InterfaceMode::Dialogue);
    assert_eq!(state.current_epic, "intro");
    assert_eq!(state.current_stage, "character_creation");
    assert_eq!(state.x, 0);
    assert_eq!(state.y, 0);
    assert_eq!(state.direction, Direction::Up);
    assert_eq!(state.total_play_time, SqlDuration { secs: 0, nanos: 0 });
    assert_eq!(state.created_at, noon());
    assert_eq!(state.updated_at, noon());
    assert_eq!(state.to_string(), "current_epic:intro, current_stage:character_creation -- x:0, y:0");
}

#[test]
fn game_state_is_summed_up_in_a_line() {
    let mut state = GameState::new(1, noon());
    state.current_epic = "level_1".to_string();
    state.current_stage = "dungeon_1".to_string();
    state.x = 10;
    state.y = 20;
    assert_eq!(state.to_string(), "current_epic:level_1, current_stage:dungeon_1 -- x:10, y:20");
    state.x = usize::MAX;
    state.y = 1234567890;
    assert_eq!(
        state.to_string(),
        format!("current_epic:level_1, current_stage:dungeon_1 -- x:{}, y:1234567890", usize::MAX)
    );
}

#[test]
fn character_creation_leads_to_the_tutorial() {
    let mut state = GameState::new(1, noon());
    assert!(in_character_creation(&state));
    state.x = 3;
    finish_character_creation(&mut state);
    assert!(!in_character_creation(&state));
    assert_eq!(state.current_stage, "book_tutorial");
    assert_eq!(state.current_epic, "intro");
    assert_eq!(state.x, 3);
    assert_eq!(gender_options(), vec![Gender::Male, Gender::Female, Gender::Unspecified]);
    assert_eq!(
        height_options(),
        vec![Height::VeryShort, Height::Short, Height::Average, Height::Tall, Height::VeryTall]
    );
    assert!(leads_to_tutorial(InterfaceMode::BookBuilder));
    assert!(!leads_to_tutorial(InterfaceMode::WorldNavigation));
    assert!(!leads_to_tutorial(InterfaceMode::Battle));
    assert!(!leads_to_tutorial(InterfaceMode::Dialogue));
}

#[test]
fn save_file_lies_in_the_save_directory() {
    assert_eq!(SAVE_DIR, "saves");
    assert_eq!(DEFAULT_DB, "save_file.db");
    assert_eq!(PLAYER_TABLE, "players");
    let path = get_save_path(None);
    assert_eq!(path.dir, "saves");
    assert_eq!(path.file, "save_file.db");
    let path = get_save_path(Some("test_1.db"));
    assert_eq!(path.dir, "saves");
    assert_eq!(path.file, "test_1.db");
}

fn line(responses: Option<Vec<DialogueResponse>>, has_input: Option<bool>, next_id: Option<u32>) -> Dialogue {
    Dialogue::new(
        1,
        1,
        CharacterType::NonPlayerCharacter,
        Some(true),
        Some("character_creation".to_string()),
        "Hello, {args[0]}!".to_string(),
        responses,
        has_input,
        None,
        next_id,
    )
}

#[test]
fn dialogue_nodes_tell_their_kind() {
    let plain = line(None, None, Some(2));
    assert!(!plain.is_end_node());
    assert!(!plain.is_input_node());
    assert!(plain.is_root_node());
    assert!(!plain.is_choices_node());
    assert_eq!(plain.get_text(), "Hello, {args[0]}!");
    assert!(plain.get_responses().is_none());
    let input = line(Some(Vec::new()), Some(true), None);
    assert!(input.is_end_node());
    assert!(input.is_input_node());
    assert!(!input.is_choices_node());
    let not_input = line(None, Some(false), None);
    assert!(!not_input.is_input_node());
    let mut choice = line(Some(vec![DialogueResponse::new(1, "Go left".to_string(), 5)]), None, Some(2));
    assert!(choice.is_choices_node());
    assert_eq!(choice.get_responses().as_ref().unwrap()[0].text, "Go left");
    let mut not_root = line(None, None, None);
    not_root.root = Some(false);
    assert!(!not_root.is_root_node());
    not_root.root = None;
    assert!(!not_root.is_root_node());
    // The answers can be changed in place.
    choice.get_responses_mut().unwrap()[0].next_id = 9;
    choice.get_responses_mut().unwrap().push(DialogueResponse::new(1, "Go right".to_string(), 6));
    assert_eq!(choice.get_responses().as_ref().unwrap().len(), 2);
    assert_eq!(choice.get_responses().as_ref().unwrap()[0].next_id, 9);
    assert!(line(None, None, None).get_responses_mut().is_none());
}

#[test]
fn new_response_has_no_number_yet() {
    let r = DialogueResponse::new(4, "Talk".to_string(), 8);
    assert_eq!(r.id, 0);
    assert_eq!(r.dialogue_id, 4);
    assert_eq!(r.text, "Talk");
    assert_eq!(r.next_id, 8);
    assert!(responses_found(Vec::new()).is_none());
    assert_eq!(responses_found(vec![r]).unwrap().len(), 1);
}

fn data() -> Vec<(String, String)> {
    vec![
        ("player.name".to_string(), "Nick".to_string()),
        ("player.height".to_string(), "Tall".to_string()),
    ]
}

#[test]
fn placeholders_are_filled_in() {
    let args = vec!["Ann".to_string(), "Bob".to_string()];
    assert_eq!(process_dialogue_text("Hello, {args[0]}!", &args, &data()), "Hello, Ann!");
    assert_eq!(
        process_dialogue_text("{args[1]} meets {args[0]} and {args[1]}", &args, &data()),
        "Bob meets Ann and Bob"
    );
    assert_eq!(
        process_dialogue_text("{player.name} is {player.height}.", &args, &data()),
        "Nick is Tall."
    );
    assert_eq!(process_dialogue_text("No placeholders", &args, &data()), "No placeholders");
    assert_eq!(process_dialogue_text("", &args, &data()), "");
}

#[test]
fn unknown_placeholders_stay() {
    let args = vec!["Ann".to_string()];
    for text in [
        "{args[1]}",
        "{args[]}",
        "{args[x]}",
        "{args[0]x}",
        "{args[0}",
        "{args0]}",
        "{player.age}",
        "{player}",
        "{npc.name}",
        "{player_name}",
        "{}",
        "{ args[0] }",
        "{args[-1]}",
        "{args[99999999999999999999999999]}",
    ] {
        assert_eq!(process_dialogue_text(text, &args, &data()), text);
    }
    assert_eq!(process_dialogue_text("{args[00]}", &args, &data()), "Ann");
    assert_eq!(process_dialogue_text("{{args[0]}}", &args, &data()), "{Ann}");
    assert_eq!(process_dialogue_text("{args[0]}", &Vec::new(), &data()), "{args[0]}");
    assert_eq!(process_dialogue_text("{player.name}", &args, &Vec::new()), "{player.name}");
}

#[test]
fn values_may_bring_placeholders_of_their_own() {
    // What is put in for the first placeholder is searched for the second.
    let args = vec!["{args[1]}".to_string(), "x".to_string()];
    assert_eq!(process_dialogue_text("{args[0]} {args[1]}", &args, &data()), "x x");
    let args = vec!["x".to_string(), "{args[0]}".to_string()];
    assert_eq!(process_dialogue_text("{args[0]} {args[1]}", &args, &data()), "x {args[0]}");
}

#[test]
fn later_entries_of_the_whitelist_win() {
    let mut list = data();
    list.push(("player.name".to_string(), "Nora".to_string()));
    assert_eq!(process_dialogue_text("{player.name}", &Vec::new(), &list), "Nora");
}

#[test]
fn placeholders_are_put_in_as_they_were_found() {
    let found = vec![
        Capture { whole: "{args[0]}".to_string(), inner: "args[0]".to_string() },
        Capture { whole: "<n>".to_string(), inner: "player.name".to_string() },
        Capture { whole: "zz".to_string(), inner: "other".to_string() },
        Capture { whole: "".to_string(), inner: "args[+1]".to_string() },
    ];
    let args = vec!["<n>".to_string(), "-".to_string()];
    assert_eq!(
        substitute_placeholders("{args[0]} zz <n>", &found, &args, &data()),
        "-N-i-c-k- -z-z- -N-i-c-k-"
    );
    assert_eq!(substitute_placeholders("abc", &Vec::new(), &args, &data()), "abc");
}

#[test]
fn routines_hold_what_they_are_given() {
    let player = Player::new("Ann".to_string(), Gender::Female, Height::Tall, noon());
    let enemy = NPC::new("Jimmy".to_string(), Gender::Male, noon());
    let battle = BattleRoutine::new(player.clone(), enemy);
    assert_eq!(battle.player.name, "Ann");
    assert_eq!(battle.enemy.name, "Jimmy");
    assert_eq!(BookBuilderRoutine::new(player.clone()).player.name, "Ann");
    let tutorial = BookTutorialRoutine::new(player);
    assert_eq!(tutorial.player.name, "Ann");
    assert_eq!(tutorial.lines(), vec!["Okay, young one.", "It's time to begin your own story."]);
    assert_eq!(TitleMenuRoutine.new(), TitleMenuRoutine);
    assert_eq!(GameEvent::Typing(Key::Char('a')), GameEvent::Typing(Key::Char('a')));
    assert!(GameEvent::Quit != GameEvent::Other(Key::Esc));
}

#[test]
fn menu_moves_its_mark_and_chooses() {
    assert_eq!(menu_select(0, 3, Key::Down), MenuStep::Mark(1));
    assert_eq!(menu_select(1, 3, Key::Down), MenuStep::Mark(2));
    assert_eq!(menu_select(2, 3, Key::Down), MenuStep::Mark(2));
    assert_eq!(menu_select(2, 3, Key::Up), MenuStep::Mark(1));
    assert_eq!(menu_select(0, 3, Key::Up), MenuStep::Mark(0));
    assert_eq!(menu_select(2, 3, Key::Enter), MenuStep::Choose(2));
    assert_eq!(menu_select(2, 3, Key::Esc), MenuStep::Choose(0));
    assert_eq!(menu_select(1, 3, Key::Char('x')), MenuStep::Choose(0));
    assert_eq!(menu_select(0, 1, Key::Down), MenuStep::Mark(0));
}

#[test]
fn walk_ends_where_the_book_builder_opens() {
    let mut routine = WorldNavigationRoutine::new(GameState::new(1, noon()));
    assert_eq!(routine.after_render(), NextStep::Wait);
    assert!(!routine.arrived());
    for action in [
        NavigationAction::Down,
        NavigationAction::Down,
        NavigationAction::Down,
        NavigationAction::Right,
        NavigationAction::Right,
    ] {
        assert_eq!(routine.after_render(), NextStep::Wait);
        assert_eq!(routine.step(action), NextStep::Wait);
    }
    assert_eq!((routine.game_state.x, routine.game_state.y), (1, 2));
    assert_eq!(routine.game_state.direction, Direction::Right);
    assert!(routine.arrived());
    assert_eq!(routine.after_render(), NextStep::End(InterfaceMode::BookBuilder));
    assert_eq!(routine.game_state.current_stage, "character_creation");
}

#[test]
fn walk_is_refitted_or_left() {
    let mut routine = WorldNavigationRoutine::new(GameState::new(1, noon()));
    assert_eq!(routine.step(NavigationAction::Resize), NextStep::Refit);
    assert_eq!(routine.step(NavigationAction::Exit), NextStep::End(InterfaceMode::WorldNavigation));
    assert_eq!(routine.step(NavigationAction::Inspect), NextStep::End(InterfaceMode::WorldNavigation));
    assert_eq!((routine.game_state.x, routine.game_state.y), (0, 0));
    // At the far corner of the map there is no way on.
    routine.game_state.x = 499;
    routine.game_state.y = 99;
    routine.game_state.direction = Direction::Right;
    routine.step(NavigationAction::Right);
    routine.step(NavigationAction::Down);
    routine.step(NavigationAction::Down);
    assert_eq!((routine.game_state.x, routine.game_state.y), (499, 99));
}

#[test]
fn conversation_asks_for_what_the_line_needs() {
    let plain = line(None, None, Some(2));
    let input = line(None, Some(true), Some(2));
    let choice = line(Some(vec![DialogueResponse::new(1, "a".to_string(), 2)]), Some(true), None);
    assert_eq!(DialogueRoutine::prompt(&plain), Prompt::Continue);
    assert_eq!(DialogueRoutine::prompt(&input), Prompt::Input);
    assert_eq!(DialogueRoutine::prompt(&choice), Prompt::Choice);
    assert!(!DialogueRoutine::is_over(&plain));
    assert!(DialogueRoutine::is_over(&choice));
    assert_eq!(DialogueRoutine::whitelisted_data(), data());
    let routine = DialogueRoutine::new(plain);
    assert_eq!(routine.root_node.id, 1);
    let args = vec!["Ann".to_string()];
    assert_eq!(
        DialogueRoutine::shown_text(&routine.root_node, &args, &DialogueRoutine::whitelisted_data()),
        "Hello, Ann!"
    );
}

#[test]
fn conversation_takes_typed_input() {
    let mut args = vec!["first".to_string()];
    assert!(!DialogueRoutine::take_input(&mut args, "   \n"));
    assert!(!DialogueRoutine::take_input(&mut args, ""));
    assert_eq!(args, vec!["first"]);
    assert!(DialogueRoutine::take_input(&mut args, "  Nick \n"));
    assert_eq!(args, vec!["first", "Nick"]);
}

#[test]
fn gender_error_quotes_what_it_did_not_understand() {
    let error = Gender::parse(" Other ").unwrap_err();
    assert_eq!(error.to_string(), "Invalid gender: InvalidGender(\"other\")");
    let error = GenderParseError::InvalidGender("a\"b\\c\n".to_string());
    assert_eq!(error.to_string(), "Invalid gender: InvalidGender(\"a\\\"b\\\\c\\n\")");
    assert_eq!(error.to_string(), format!("Invalid gender: {:?}", error));
}

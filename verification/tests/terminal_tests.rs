use tbg::pattern::Capture;
use tbg::terminal_utils::{
    action_required, draw_title_with_gradient, line_count, print_menu, simulate_typing,
    title_screen, trimmed_input, Color, TBGColors, ACTION_COLOR, TEXT_COLOR, TITLE,
};
use tbg::thread_demo::run_demo::App;
use tbg::tui::book::back_cover::BackCover;
use tbg::tui::book::front_cover::FrontCover;
use tbg::tui::book::inside_back_cover::InsideBackCover;
use tbg::tui::book::inside_front_cover::InsideFrontCover;
use tbg::tui::window::{frame_text, measure_line, Window};
use tbg::world::navigation::Key;

#[test]
fn terminal_utils_test_create_player() {}

#[test]
fn colors_have_their_escape_codes() {
    assert_eq!(ACTION_COLOR, Color::DarkCyan);
    assert_eq!(TEXT_COLOR, Color::DarkYellow);
    assert_eq!(TBGColors::fg_string(Color::DarkCyan), "\x1b[36m");
    assert_eq!(TBGColors::fg_string(Color::DarkYellow), "\x1b[33m");
    assert_eq!(TBGColors::fg_string(Color::Reset), "\x1b[39m");
    assert_eq!(TBGColors::fg_str_reset(), "\x1b[39m");
}

#[test]
fn action_required_colors_the_message() {
    assert_eq!(action_required("Press enter"), "\x1b[36mPress enter\x1b[39m");
    assert_eq!(action_required(""), "\x1b[36m\x1b[39m");
    let prompt = "\rPress enter to continue... ";
    assert_eq!(
        action_required(&format!("\n{}", prompt)),
        format!("{}{}{}", "\x1b[36m", "\n\rPress enter to continue... ", "\x1b[39m")
    );
}

#[test]
fn input_is_trimmed() {
    assert_eq!(trimmed_input("  Nick \n"), "Nick");
    assert_eq!(trimmed_input("Nick"), "Nick");
    assert_eq!(trimmed_input("\t a b \r\n"), "a b");
    assert_eq!(trimmed_input("   "), "");
    assert_eq!(trimmed_input(""), "");
    assert_eq!(trimmed_input("\u{a0}\u{3000}é \u{2003}"), "é");
    for text in ["", " ", "x", " x", "x ", "  x y  ", "\n\n", "\u{85}a\u{2028}"] {
        assert_eq!(trimmed_input(text), text.trim());
    }
}

#[test]
fn typing_shows_one_more_character_each_frame() {
    assert_eq!(
        simulate_typing("Hi!"),
        vec!["\x1b[33mH\x1b[39m", "\x1b[33mHi\x1b[39m", "\x1b[33mHi!\x1b[39m"]
    );
    assert!(simulate_typing("").is_empty());
    assert_eq!(simulate_typing("é♭").len(), 2);
    assert_eq!(simulate_typing("é♭")[0], "\x1b[33mé\x1b[39m");
}

#[test]
fn title_is_drawn_line_by_line_in_its_colors() {
    assert_eq!(line_count("a\nb\nc"), 3);
    assert_eq!(line_count(""), 1);
    assert_eq!(line_count("\n"), 2);
    let colors = vec![(0, 255, 128), (128, 128, 128), (255, 0, 128)];
    assert_eq!(
        draw_title_with_gradient("one\ntwo\n", &colors),
        "\x1b[38;2;0;255;128mone\x1b[0m\n\x1b[38;2;128;128;128mtwo\x1b[0m\n\x1b[38;2;255;0;128m\x1b[0m\n"
    );
    assert_eq!(draw_title_with_gradient("x", &vec![(1, 22, 133)]), "\x1b[38;2;1;22;133mx\x1b[0m\n");
}

fn options() -> Vec<String> {
    vec!["Male".to_string(), "Female".to_string(), "Unspecified".to_string()]
}

#[test]
fn menu_is_shown_blank_first_and_full_last() {
    let frames = print_menu("Who?", &options(), 1, false);
    assert_eq!(
        frames,
        vec![
            "Who?\n\n\n\n".to_string(),
            "Who?\n\n\n\n".to_string(),
            [
                "\x1b[33mWho?\x1b[39m\n",
                "  \x1b[36mMale\x1b[39m\n",
                "\x1b[36m> Female\x1b[39m\n",
                "  \x1b[36mUnspecified\x1b[39m\n"
            ]
            .concat(),
        ]
    );
}

#[test]
fn menu_message_is_typed_out() {
    let frames = print_menu("Hi", &options(), 0, true);
    assert_eq!(
        frames,
        vec![
            "Hi\n\n\n\n".to_string(),
            "\x1b[33mH\x1b[39m\n\n\n\n".to_string(),
            "\x1b[33mHi\x1b[39m\n\n\n\n".to_string(),
            [
                "\x1b[33mHi\x1b[39m\n",
                "\x1b[36m> Male\x1b[39m\n",
                "  \x1b[36mFemale\x1b[39m\n",
                "  \x1b[36mUnspecified\x1b[39m\n"
            ]
            .concat(),
        ]
    );
    // A message of two lines keeps its second line below what is typed.
    let frames = print_menu("a\nb", &vec!["x".to_string()], 5, true);
    assert_eq!(
        frames,
        vec![
            "a\nb\n\n".to_string(),
            "\x1b[33ma\x1b[39m\nb\n\n".to_string(),
            "\x1b[33ma\n\x1b[39m\nb\n\n".to_string(),
            "\x1b[33ma\nb\x1b[39m\nb\n\n".to_string(),
            "\x1b[33ma\nb\x1b[39m\n  \x1b[36mx\x1b[39m\n".to_string(),
        ]
    );
    let frames = print_menu("", &Vec::new(), 0, true);
    assert_eq!(frames, vec!["\n".to_string(), "\x1b[33m\x1b[39m\n".to_string()]);
}

#[test]
fn lines_are_measured_without_their_colors() {
    assert_eq!(measure_line("hello"), 5);
    assert_eq!(measure_line(""), 0);
    assert_eq!(measure_line("\x1b[33mhello\x1b[39m"), 5);
    assert_eq!(measure_line("\x1b[38;2;1;22;133mx\x1b[0m"), 1);
    assert_eq!(measure_line("\x1b[36m> Male\x1b[39m"), 6);
    // Wide characters take two columns.
    assert_eq!(measure_line("日本"), 4);
    assert_eq!(measure_line("▲█"), 2);
}

fn expected_frame(width: usize, height: usize, lines: &[(&str, usize)]) -> String {
    let inner = width - 2;
    let run = format!("{}{}", "╼◈╾".repeat(inner / 3), "━".repeat(inner % 3));
    let empty = format!("║{}║\r\n", " ".repeat(inner));
    let above = (height - lines.len() - 2) / 2;
    let below = (height - lines.len() - above - 2).saturating_sub(1);
    let mut out = format!("╭{}╮\r\n", run);
    out.push_str(&empty.repeat(above));
    for (line, columns) in lines {
        let free = inner - columns;
        out.push_str(&format!(
            "┃{}{}{}┃\r\n",
            " ".repeat(free / 2),
            line,
            " ".repeat(free - free / 2)
        ));
    }
    out.push_str(&empty.repeat(below));
    out.push_str(&format!("╰{}╯\r", run));
    out
}

#[test]
fn window_frames_its_text() {
    let text = Window::new("hello").frame(12, 5).unwrap();
    assert_eq!(
        text,
        [
            "╭╼◈╾╼◈╾╼◈╾━╮\r\n",
            "║          ║\r\n",
            "┃  hello   ┃\r\n",
            "╰╼◈╾╼◈╾╼◈╾━╯\r"
            ]
            .concat()
    );
    assert_eq!(text, expected_frame(12, 5, &[("hello", 5)]));
    let text = Window::new("one\n\x1b[33mthree\x1b[39m").frame(80, 24).unwrap();
    assert_eq!(text, expected_frame(80, 24, &[("one", 3), ("\x1b[33mthree\x1b[39m", 5)]));
    assert_eq!(text.matches("\r\n").count(), 22);
    // A terminal that is too small counts as ten columns and five rows.
    let small = Window::new("hi").frame(3, 1).unwrap();
    assert_eq!(small, expected_frame(10, 5, &[("hi", 2)]));
    let wide = Window::new("日本").frame(11, 6).unwrap();
    assert_eq!(wide, expected_frame(11, 6, &[("日本", 4)]));
    assert_eq!(Window::new("").frame(10, 5).unwrap(), expected_frame(10, 5, &[("", 0)]));
}

#[test]
fn window_has_no_frame_for_what_does_not_fit() {
    assert!(Window::new("a\nb\nc\nd").frame(20, 5).is_none());
    assert!(Window::new("a\nb\nc").frame(20, 5).is_some());
    assert!(Window::new("123456789").frame(10, 5).is_none());
    assert!(Window::new("12345678").frame(10, 5).is_some());
    assert!(Window::new("\x1b[33m12345678\x1b[39m").frame(10, 5).is_some());
    assert!(Window::new("日本日本日").frame(10, 5).is_none());
}

#[test]
fn frame_is_drawn_around_measured_lines() {
    let lines: Vec<Vec<char>> = vec!["ab".chars().collect(), "c".chars().collect()];
    let text = frame_text(10, 7, &lines, &vec![2, 1]);
    assert_eq!(text, expected_frame(10, 7, &[("ab", 2), ("c", 1)]));
    // The widths decide the padding, whatever the lines hold.
    let text = frame_text(10, 7, &lines, &vec![8, 0]);
    assert_eq!(text, expected_frame(10, 7, &[("ab", 8), ("c", 0)]));
}

#[test]
fn covers_hold_their_text() {
    assert_eq!(BackCover::new("back").content, "back");
    assert_eq!(FrontCover::new("front").content, "front");
    assert_eq!(InsideBackCover::new("inside back").content, "inside back");
    assert_eq!(InsideFrontCover::new("inside front").content, "inside front");
}

#[test]
fn capture_holds_its_texts() {
    let c = Capture { whole: "{a}".to_string(), inner: "a".to_string() };
    assert_eq!(c.whole, "{a}");
    assert_eq!(c.inner, "a");
}

#[test]
fn counter_counts_and_quits() {
    let mut app = App::new();
    assert_eq!(app.counter, 0);
    assert!(!app.exit && !app.input_mode && app.player_name.is_empty());
    app.handle_events(Key::Right);
    app.handle_events(Key::Right);
    app.handle_events(Key::Left);
    assert_eq!(app.counter, 1);
    app.handle_events(Key::Up);
    app.handle_events(Key::Char('x'));
    app.handle_events(Key::Enter);
    assert_eq!(app.counter, 1);
    assert!(!app.exit);
    app.handle_events(Key::Char('q'));
    assert!(app.exit);
}

#[test]
fn counter_takes_a_name() {
    let mut app = App::new();
    app.handle_events(Key::Backspace);
    app.handle_events(Key::Char('i'));
    assert!(app.input_mode);
    for c in "Niq".chars() {
        app.handle_events(Key::Char(c));
    }
    app.handle_events(Key::Backspace);
    app.handle_events(Key::Char('c'));
    app.handle_events(Key::Char('k'));
    // While a name is typed the other keys do not count or quit.
    app.handle_events(Key::Left);
    app.handle_events(Key::Char('q'));
    assert_eq!(app.counter, 0);
    assert!(!app.exit);
    assert_eq!(app.player_name.iter().collect::<String>(), "Nickq");
    app.handle_events(Key::Backspace);
    app.handle_events(Key::Enter);
    assert!(!app.input_mode);
    assert_eq!(app.player_name.iter().collect::<String>(), "Nick");
    let mut empty = App::new();
    empty.handle_events(Key::Char('i'));
    empty.handle_events(Key::Backspace);
    assert!(empty.player_name.is_empty());
}

fn expected_counter(width: usize, height: usize, lines: &[String]) -> String {
    let inner = width - 2;
    let empty = format!("┃{}┃\r\n", " ".repeat(inner));
    let above = (height - 4 - 2) / 2;
    let below = (height - 4 - above - 2).saturating_sub(1);
    let mut out = format!("┏{}┓\r\n", "━".repeat(inner));
    out.push_str(&empty.repeat(above));
    for line in lines {
        out.push_str(&format!("┃{:^width$}┃\r\n", line, width = inner));
    }
    out.push_str(&empty.repeat(below));
    out.push_str(&format!("┗{}┛\r", "━".repeat(inner)));
    out
}

#[test]
fn counter_is_drawn_in_a_frame() {
    let mut app = App::new();
    app.handle_events(Key::Left);
    app.handle_events(Key::Left);
    let lines: Vec<String> = app.content().iter().map(|l| l.iter().collect()).collect();
    assert_eq!(
        lines,
        vec![
            "Counter App",
            "Value: -2",
            "Use Left/Right to change, Q to quit, I for input mode",
            "Player: ",
        ]
    );
    assert_eq!(app.draw(80, 24), expected_counter(80, 24, &lines));
    assert_eq!(app.draw(61, 7), expected_counter(61, 7, &lines));
    // Lines that are longer than the frame is wide are not cut.
    assert_eq!(app.draw(20, 6), expected_counter(20, 6, &lines));
    assert_eq!(app.draw(0, 6), expected_counter(10, 6, &lines));
    app.handle_events(Key::Char('i'));
    app.handle_events(Key::Char('Z'));
    let lines: Vec<String> = app.content().iter().map(|l| l.iter().collect()).collect();
    assert_eq!(lines[3], "Enter Name: Z");
    assert_eq!(app.draw(80, 10), expected_counter(80, 10, &lines));
}

#[test]
fn title_has_ten_lines() {
    let lines: Vec<&str> = TITLE.split('\n').collect();
    assert_eq!(lines.len(), 10);
    assert_eq!(line_count(TITLE), 10);
    assert_eq!(lines[0], "");
    assert!(lines[1].starts_with("    ___      "));
    assert!(lines[1].ends_with("__ ,    ___"));
    assert!(lines[4].contains(r"||/\\         (( |||  |"));
    assert!(lines[7].contains(r"( \_, |    -____-"));
    assert!(lines[7].ends_with(r"(  - \\,  |, \\,\\,   -____-"));
    assert_eq!(lines[9], "    ");
    assert_eq!(TITLE.len(), 982);
    assert!(TITLE.is_ascii());
}

#[test]
fn title_screen_colors_the_title() {
    let colors: Vec<(u8, u8, u8)> = (0..10).map(|i| (i * 25, 255 - i * 25, 128)).collect();
    let shown = title_screen(&colors);
    assert_eq!(shown, draw_title_with_gradient(TITLE, &colors));
    let lines: Vec<&str> = shown.split('\n').collect();
    assert_eq!(lines.len(), 11);
    assert_eq!(lines[0], "\x1b[38;2;0;255;128m\x1b[0m");
    assert!(lines[3].starts_with("\x1b[38;2;75;180;128m      (' ||"));
    assert_eq!(lines[9], "\x1b[38;2;225;30;128m    \x1b[0m");
    assert_eq!(lines[10], "");
}

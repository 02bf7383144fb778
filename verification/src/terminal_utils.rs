//! What the terminal is to show: colours, the title, typed-out text and
//! menus. Nothing here writes to the terminal; each function gives the text
//! that is to be written.

use crate::text::{decimal, from_chars, push_chars, push_decimal, push_text, split, split_chars, to_chars};
use vstd::prelude::*;

verus! {

/// The colours of the interface.
#[derive(Clone, Copy, Debug, PartialEq, Eq, Structural)]
pub enum Color {
    DarkCyan,
    DarkYellow,
    /// The colour that the terminal had before.
    Reset,
}

/// The colours that the game uses, as escape codes of the terminal.
pub struct TBGColors;

/// The colour of what the player has to act on.
pub const ACTION_COLOR: Color = Color::DarkCyan;

/// The colour of what is told.
pub const TEXT_COLOR: Color = Color::DarkYellow;

/// The escape code that sets a colour.
pub open spec fn color_code(color: Color) -> Seq<char> {
    match color {
        Color::DarkCyan => "\x1b[36m"@,
        Color::DarkYellow => "\x1b[33m"@,
        Color::Reset => "\x1b[39m"@,
    }
}

/// A text in a colour: the code of the colour, the text, and the code that
/// sets the colour back.
pub open spec fn colored(color: Color, text: Seq<char>) -> Seq<char> {
    color_code(color) + text + color_code(Color::Reset)
}

impl TBGColors {
    /// The escape code that sets a colour.
    pub fn fg_string(color: Color) -> (out: String)
        ensures
            out@ == color_code(color),
    {
        match color {
            Color::DarkCyan => String::from_str("\x1b[36m"),
            Color::DarkYellow => String::from_str("\x1b[33m"),
            Color::Reset => String::from_str("\x1b[39m"),
        }
    }

    /// The escape code that sets the colour back.
    pub fn fg_str_reset() -> (out: String)
        ensures
            out@ == color_code(Color::Reset),
    {
        String::from_str("\x1b[39m")
    }
}

/// Appends a text in a colour.
fn push_colored(out: &mut Vec<char>, color: Color, text: &Vec<char>)
    ensures
        final(out)@ == old(out)@ + colored(color, text@),
{
    let code: String = TBGColors::fg_string(color);
    let reset: String = TBGColors::fg_str_reset();
    push_text(out, code.as_str());
    push_chars(out, text);
    push_text(out, reset.as_str());
    assert(out@ =~= old(out)@ + colored(color, text@));
}

/// A message in the colour of what the player has to act on.
pub fn action_required(message: &str) -> (out: String)
    ensures
        out@ == colored(ACTION_COLOR, message@),
{
    let mut line: Vec<char> = Vec::new();
    let text: Vec<char> = to_chars(message);
    push_colored(&mut line, ACTION_COLOR, &text);
    assert(line@ =~= colored(ACTION_COLOR, message@));
    from_chars(&line)
}

/// What the player typed, without the white space around it.
pub fn trimmed_input(line: &str) -> (out: String)
    ensures
        out@ == crate::text::trimmed(line@),
{
    let chars: Vec<char> = to_chars(line);
    let core: Vec<char> = crate::text::trim(&chars);
    from_chars(&core)
}

/// The frames in which a message is typed out: in each the message is one
/// character longer, in the colour of what is told.
pub open spec fn typing_frames(message: Seq<char>) -> Seq<Seq<char>> {
    Seq::new(message.len(), |i: int| colored(TEXT_COLOR, message.take(i + 1)))
}

/// The frames in which a message is typed out, one for each character.
pub fn simulate_typing(message: &str) -> (frames: Vec<String>)
    ensures
        frames@.len() == message@.len(),
        forall|i: int|
            0 <= i < frames@.len() ==> (#[trigger] frames@[i])@ == typing_frames(message@)[i],
{
    let chars: Vec<char> = to_chars(message);
    let mut frames: Vec<String> = Vec::new();
    let mut displayed: Vec<char> = Vec::new();
    let mut i: usize = 0;
    while i < chars.len()
        invariant
            i <= chars@.len(),
            chars@ == message@,
            displayed@ == chars@.take(i as int),
            frames@.len() == i,
            forall|j: int|
                0 <= j < i ==> (#[trigger] frames@[j])@ == typing_frames(message@)[j],
        decreases chars@.len() - i,
    {
        displayed.push(chars[i]);
        assert(displayed@ =~= chars@.take(i + 1));
        let mut frame: Vec<char> = Vec::new();
        push_colored(&mut frame, TEXT_COLOR, &displayed);
        assert(frame@ =~= colored(TEXT_COLOR, message@.take(i + 1)));
        frames.push(from_chars(&frame));
        i = i + 1;
    }
    frames
}

/// The escape code that sets a colour of the given red, green and blue.
pub open spec fn rgb_code(color: (u8, u8, u8)) -> Seq<char> {
    "\x1b[38;2;"@ + decimal(color.0 as nat) + seq![';'] + decimal(color.1 as nat) + seq![';']
        + decimal(color.2 as nat) + seq!['m']
}

/// One line of the title: in its colour, with all styles set back after it.
pub open spec fn gradient_line(line: Seq<char>, color: (u8, u8, u8)) -> Seq<char> {
    rgb_code(color) + line + "\x1b[0m\n"@
}

/// The first `count` lines of the title, each in its colour.
pub open spec fn gradient_text(
    lines: Seq<Seq<char>>,
    colors: Seq<(u8, u8, u8)>,
    count: nat,
) -> Seq<char>
    decreases count,
{
    if count == 0 {
        Seq::empty()
    } else {
        gradient_text(lines, colors, (count - 1) as nat) + gradient_line(
            lines[count - 1],
            colors[count - 1],
        )
    }
}

/// How many lines a message has: one more than it has line breaks.
pub fn line_count(message: &str) -> (count: usize)
    ensures
        count == split(message@, '\n').len(),
        count > 0,
{
    let chars: Vec<char> = to_chars(message);
    let lines: Vec<Vec<char>> = split_chars(&chars, '\n');
    lines.len()
}

/// The title with a colour for each of its lines, from the first line to
/// the last.
pub fn draw_title_with_gradient(message: &str, colors: &Vec<(u8, u8, u8)>) -> (out: String)
    requires
        colors@.len() == split(message@, '\n').len(),
    ensures
        out@ == gradient_text(split(message@, '\n'), colors@, colors@.len()),
{
    let chars: Vec<char> = to_chars(message);
    let lines: Vec<Vec<char>> = split_chars(&chars, '\n');
    let mut output: Vec<char> = Vec::new();
    let mut i: usize = 0;
    while i < lines.len()
        invariant
            i <= lines@.len(),
            lines@.len() == colors@.len(),
            lines@.len() == split(message@, '\n').len(),
            forall|j: int|
                0 <= j < lines@.len() ==> (#[trigger] lines@[j])@ == split(message@, '\n')[j],
            output@ == gradient_text(split(message@, '\n'), colors@, i as nat),
        decreases lines@.len() - i,
    {
        let ghost before: Seq<char> = output@;
        let color: (u8, u8, u8) = colors[i];
        push_text(&mut output, "\x1b[38;2;");
        push_decimal(&mut output, color.0 as u64);
        output.push(';');
        push_decimal(&mut output, color.1 as u64);
        output.push(';');
        push_decimal(&mut output, color.2 as u64);
        output.push('m');
        push_chars(&mut output, &lines[i]);
        push_text(&mut output, "\x1b[0m\n");
        assert(output@ =~= before + gradient_line(split(message@, '\n')[i as int], colors@[i as int]));
        i = i + 1;
    }
    from_chars(&output)
}

/// The title of the game, drawn in characters.
pub const TITLE: &'static str = "\n\
\x20   ___                                               __         __                         __ ,    ___\n\
\x20   -   ---___- _-_-        ,- _~,       _-_ _,,     ,-||-,     ,-||-,   _-_-,             ,-| ~    -   -_,   /\\\\,/\\\\,   ,- _~,\n\
\x20     (' ||      /,       (' /| /          -/  )   ('|||  )   ('|||  )    // ,           ('||/__, (  ~/||   /| || ||   (' /| /\n\
\x20    ((  ||      || __   ((  ||/=         ~||_<   (( |||--)) (( |||--))   ||/\\\\         (( |||  | (  / ||   || || ||  ((  ||/=\n\
\x20    ((   ||     ~||-  -  ((  ||            || \\\\  (( |||--)) (( |||--))  ~|| <          (( |||==|  \\/==||   ||=|= ||  ((  ||\n\
\x20    (( //       ||===||  ( / |            ,/--||  ( / |  )   ( / |  )    ||/\\\\          ( / |  ,  /_ _||  ~|| || ||   ( / |\n\
\x20      -____-   ( \\_, |    -____-         _--_-'    -____-     -____-    _-__,\\\\,         -____/  (  - \\\\,  |, \\\\,\\\\,   -____-\n\
\x20                                           (                                                                 _-\n\
\x20   ";

/// The title screen: the title with a colour for each of its lines.
pub fn title_screen(colors: &Vec<(u8, u8, u8)>) -> (out: String)
    requires
        colors@.len() == split(TITLE@, '\n').len(),
    ensures
        out@ == gradient_text(split(TITLE@, '\n'), colors@, colors@.len()),
{
    draw_title_with_gradient(TITLE, colors)
}

/// What follows the first line break of a text.
pub open spec fn after_first_line(text: Seq<char>) -> Seq<char>
    decreases text.len(),
{
    if text.len() == 0 {
        text
    } else if text[0] == '\n' {
        text.drop_first()
    } else {
        after_first_line(text.drop_first())
    }
}

/// A run of line breaks.
pub open spec fn line_breaks(count: nat) -> Seq<char> {
    Seq::new(count, |i: int| '\n')
}

/// The window of a menu before its options are shown: the message and an
/// empty line for each option, so that nothing jumps when they come.
pub open spec fn menu_blank(message: Seq<char>, options: nat) -> Seq<char> {
    message + seq!['\n'] + line_breaks(options)
}

/// The line of an option: the chosen one is marked with `> `, every other
/// is set in by as much.
pub open spec fn option_line(option: Seq<char>, chosen: bool) -> Seq<char> {
    if chosen {
        color_code(ACTION_COLOR) + "> "@ + option + color_code(Color::Reset) + seq!['\n']
    } else {
        "  "@ + colored(ACTION_COLOR, option) + seq!['\n']
    }
}

/// The lines of the first `count` options.
pub open spec fn option_lines(options: Seq<String>, selected_index: nat, count: nat) -> Seq<char>
    decreases count,
{
    if count == 0 {
        Seq::empty()
    } else {
        option_lines(options, selected_index, (count - 1) as nat) + option_line(
            options[count - 1]@,
            count - 1 == selected_index,
        )
    }
}

/// The window of a menu with its options.
pub open spec fn menu_full(message: Seq<char>, options: Seq<String>, selected_index: nat) -> Seq<
    char,
> {
    colored(TEXT_COLOR, message) + seq!['\n'] + option_lines(options, selected_index, options.len())
}

/// A frame of the message of a menu being typed out above the empty lines.
pub open spec fn menu_typing_frame(message: Seq<char>, options: nat, typed: nat) -> Seq<char> {
    colored(TEXT_COLOR, message.take(typed as int)) + seq!['\n'] + after_first_line(
        menu_blank(message, options),
    )
}

/// The windows that a menu is shown in, one after the other: the blank
/// window; then the message typed out character by character, or the blank
/// window once more where it is not typed; then the menu with its options.
pub open spec fn menu_frames(
    message: Seq<char>,
    options: Seq<String>,
    selected_index: nat,
    use_simulate_typing: bool,
) -> Seq<Seq<char>> {
    let blank = menu_blank(message, options.len());
    let middle = if use_simulate_typing {
        Seq::new(message.len(), |i: int| menu_typing_frame(message, options.len(), (i + 1) as nat))
    } else {
        seq![blank]
    };
    seq![blank] + middle + seq![menu_full(message, options, selected_index)]
}

/// Finds what follows the first line break.
fn rest_after_first_line(text: &Vec<char>) -> (out: Vec<char>)
    ensures
        out@ == after_first_line(text@),
{
    let mut i: usize = 0;
    proof {
        assert(text@.skip(0) =~= text@);
    }
    while i < text.len() && text[i] != '\n'
        invariant
            i <= text@.len(),
            after_first_line(text@) == after_first_line(text@.skip(i as int)),
        decreases text@.len() - i,
    {
        proof {
            assert(text@.skip(i as int).drop_first() =~= text@.skip(i + 1));
        }
        i = i + 1;
    }
    let mut out: Vec<char> = Vec::new();
    if i == text.len() {
        assert(text@.skip(i as int) =~= Seq::<char>::empty());
        assert(out@ =~= after_first_line(text@));
        return out;
    }
    let start: usize = i + 1;
    proof {
        assert(text@.skip(i as int).drop_first() =~= text@.skip(start as int));
    }
    let mut j: usize = start;
    while j < text.len()
        invariant
            start <= j <= text@.len(),
            out@ == text@.subrange(start as int, j as int),
        decreases text@.len() - j,
    {
        out.push(text[j]);
        assert(text@.subrange(start as int, j + 1) =~= text@.subrange(start as int, j as int).push(
            text@[j as int],
        ));
        j = j + 1;
    }
    assert(text@.subrange(start as int, text@.len() as int) =~= text@.skip(start as int));
    out
}

/// The windows that a menu is shown in, one after the other.
///
/// The caller draws each window in turn, and waits a moment after each
/// frame of typing. Which option is chosen is for the caller to keep.
pub fn print_menu(
    message: &str,
    options: &Vec<String>,
    selected_index: usize,
    use_simulate_typing: bool,
) -> (frames: Vec<String>)
    ensures
        frames@.len() == menu_frames(
            message@,
            options@,
            selected_index as nat,
            use_simulate_typing,
        ).len(),
        forall|i: int|
            0 <= i < frames@.len() ==> (#[trigger] frames@[i])@ == menu_frames(
                message@,
                options@,
                selected_index as nat,
                use_simulate_typing,
            )[i],
{
    let ghost wanted: Seq<Seq<char>> = menu_frames(
        message@,
        options@,
        selected_index as nat,
        use_simulate_typing,
    );
    let chars: Vec<char> = to_chars(message);
    let mut frames: Vec<String> = Vec::new();

    // The message above an empty line for each option.
    let mut content: Vec<char> = Vec::new();
    push_chars(&mut content, &chars);
    content.push('\n');
    let mut k: usize = 0;
    while k < options.len()
        invariant
            k <= options@.len(),
            content@ == message@ + seq!['\n'] + line_breaks(k as nat),
        decreases options@.len() - k,
    {
        content.push('\n');
        assert(content@ =~= message@ + seq!['\n'] + line_breaks((k + 1) as nat));
        k = k + 1;
    }
    assert(content@ == menu_blank(message@, options@.len()));
    frames.push(from_chars(&content));

    if use_simulate_typing {
        let rest: Vec<char> = rest_after_first_line(&content);
        let mut typed: Vec<char> = Vec::new();
        let mut i: usize = 0;
        while i < chars.len()
            invariant
                i <= chars@.len(),
                chars@ == message@,
                use_simulate_typing,
                wanted == menu_frames(
                    message@,
                    options@,
                    selected_index as nat,
                    use_simulate_typing,
                ),
                rest@ == after_first_line(menu_blank(message@, options@.len())),
                typed@ == chars@.take(i as int),
                frames@.len() == i + 1,
                forall|j: int| 0 <= j < frames@.len() ==> (#[trigger] frames@[j])@ == wanted[j],
            decreases chars@.len() - i,
        {
            typed.push(chars[i]);
            assert(typed@ =~= chars@.take(i + 1));
            let mut frame: Vec<char> = Vec::new();
            push_colored(&mut frame, TEXT_COLOR, &typed);
            frame.push('\n');
            push_chars(&mut frame, &rest);
            assert(frame@ =~= menu_typing_frame(message@, options@.len(), (i + 1) as nat));
            frames.push(from_chars(&frame));
            i = i + 1;
        }
    } else {
        frames.push(from_chars(&content));
    }

    // The message in its colour above the options.
    let mut full: Vec<char> = Vec::new();
    push_colored(&mut full, TEXT_COLOR, &chars);
    full.push('\n');
    let mut n: usize = 0;
    while n < options.len()
        invariant
            n <= options@.len(),
            full@ == colored(TEXT_COLOR, message@) + seq!['\n'] + option_lines(
                options@,
                selected_index as nat,
                n as nat,
            ),
        decreases options@.len() - n,
    {
        let ghost before: Seq<char> = full@;
        let option: Vec<char> = to_chars(options[n].as_str());
        if n == selected_index {
            push_text(&mut full, "\x1b[36m");
            push_text(&mut full, "> ");
            push_chars(&mut full, &option);
            push_text(&mut full, "\x1b[39m");
        } else {
            push_text(&mut full, "  ");
            push_colored(&mut full, ACTION_COLOR, &option);
        }
        full.push('\n');
        assert(full@ =~= before + option_line(options@[n as int]@, n == selected_index));
        assert(full@ =~= colored(TEXT_COLOR, message@) + seq!['\n'] + option_lines(
            options@,
            selected_index as nat,
            (n + 1) as nat,
        ));
        n = n + 1;
    }
    assert(full@ == menu_full(message@, options@, selected_index as nat));
    frames.push(from_chars(&full));
    frames
}

} // verus!

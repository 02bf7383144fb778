//! The counter: its state, what the keys do to it, and how it is drawn.

use crate::text::{
    from_chars, push_chars, push_signed_decimal, push_text, signed_decimal, to_chars,
};
use crate::tui::window::{frame_height, frame_width, push_repeated, repeated};
use crate::world::navigation::Key;
use vstd::prelude::*;

verus! {

/// The state of the counter.
pub struct App {
    pub counter: i32,
    /// Whether the demo is over.
    pub exit: bool,
    /// Whether the keys are typed into the name.
    pub input_mode: bool,
    pub player_name: Vec<char>,
}

/// The state of the counter as contracts speak of it.
pub struct AppView {
    pub counter: i32,
    pub exit: bool,
    pub input_mode: bool,
    pub player_name: Seq<char>,
}

impl View for App {
    type V = AppView;

    open spec fn view(&self) -> AppView {
        AppView {
            counter: self.counter,
            exit: self.exit,
            input_mode: self.input_mode,
            player_name: self.player_name@,
        }
    }
}

/// The state after a key.
///
/// While a name is typed, enter ends the typing, backspace takes the last
/// character away and every character key adds its character. Otherwise
/// `q` ends the demo, the arrows to the left and to the right count down
/// and up, and `i` begins the typing of a name. Every other key does
/// nothing.
pub open spec fn after_key(app: AppView, key: Key) -> AppView {
    if app.input_mode {
        match key {
            Key::Enter => AppView { input_mode: false, ..app },
            Key::Backspace => AppView {
                player_name: if app.player_name.len() > 0 {
                    app.player_name.drop_last()
                } else {
                    app.player_name
                },
                ..app
            },
            Key::Char(c) => AppView { player_name: app.player_name.push(c), ..app },
            _ => app,
        }
    } else {
        match key {
            Key::Left => AppView { counter: (app.counter - 1) as i32, ..app },
            Key::Right => AppView { counter: (app.counter + 1) as i32, ..app },
            Key::Char(c) => if c == 'q' {
                AppView { exit: true, ..app }
            } else if c == 'i' {
                AppView { input_mode: true, ..app }
            } else {
                app
            },
            _ => app,
        }
    }
}

/// The lines that the counter shows.
pub open spec fn content_lines(app: AppView) -> Seq<Seq<char>> {
    seq![
        "Counter App"@,
        "Value: "@ + signed_decimal(app.counter as int),
        "Use Left/Right to change, Q to quit, I for input mode"@,
        if app.input_mode {
            "Enter Name: "@ + app.player_name
        } else {
            "Player: "@ + app.player_name
        },
    ]
}

/// A line in the middle of a row of the given width. Of the columns that
/// the line leaves free, half go to its left, rounded down, and the rest to
/// its right; a line that is longer than the row stays as it is.
pub open spec fn centered(line: Seq<char>, width: int) -> Seq<char> {
    if line.len() >= width {
        line
    } else {
        repeated(" "@, ((width - line.len()) / 2) as nat) + line + repeated(
            " "@,
            (width - line.len() - (width - line.len()) / 2) as nat,
        )
    }
}

/// The rows of the first `count` lines, each between the sides of the frame.
pub open spec fn content_rows(lines: Seq<Seq<char>>, width: u16, count: nat) -> Seq<char>
    decreases count,
{
    if count == 0 {
        Seq::empty()
    } else {
        content_rows(lines, width, (count - 1) as nat) + "\u{2503}"@ + centered(
            lines[count - 1],
            frame_width(width) - 2,
        ) + "\u{2503}\r\n"@
    }
}

/// A row of the frame with nothing in it.
pub open spec fn blank_row(width: u16) -> Seq<char> {
    "\u{2503}"@ + repeated(" "@, (frame_width(width) - 2) as nat) + "\u{2503}\r\n"@
}

/// The counter as it is written to a terminal of the given size: a frame
/// around the whole terminal with the lines in its middle.
pub open spec fn drawn(app: AppView, width: u16, height: u16) -> Seq<char> {
    let above = (frame_height(height) - 6) / 2;
    let below = frame_height(height) - 6 - above;
    "\u{250f}"@ + repeated("\u{2501}"@, (frame_width(width) - 2) as nat) + "\u{2513}\r\n"@
        + repeated(blank_row(width), above as nat) + content_rows(content_lines(app), width, 4)
        + repeated(
        blank_row(width),
        if below > 0 {
            (below - 1) as nat
        } else {
            0
        },
    ) + "\u{2517}"@ + repeated("\u{2501}"@, (frame_width(width) - 2) as nat) + "\u{251b}\r"@
}

fn push_blank_rows(out: &mut Vec<char>, width: u16, inner: usize, count: usize)
    requires
        inner == frame_width(width) - 2,
    ensures
        final(out)@ == old(out)@ + repeated(blank_row(width), count as nat),
{
    let mut i: usize = 0;
    assert(out@ =~= old(out)@ + repeated(blank_row(width), 0));
    while i < count
        invariant
            i <= count,
            inner == frame_width(width) - 2,
            out@ == old(out)@ + repeated(blank_row(width), i as nat),
        decreases count - i,
    {
        let ghost before: Seq<char> = out@;
        push_text(out, "\u{2503}");
        push_repeated(out, " ", inner);
        push_text(out, "\u{2503}\r\n");
        assert(out@ =~= before + blank_row(width));
        assert(out@ =~= old(out)@ + repeated(blank_row(width), (i + 1) as nat));
        i = i + 1;
    }
}

impl App {
    /// The counter at the start: at zero, with no name.
    pub fn new() -> (app: App)
        ensures
            app.counter == 0,
            !app.exit,
            !app.input_mode,
            app.player_name@.len() == 0,
    {
        App { counter: 0, exit: false, input_mode: false, player_name: Vec::new() }
    }

    /// Takes a key. The counter must have room for the step that the key
    /// asks for.
    pub fn handle_events(&mut self, key: Key)
        requires
            !old(self).input_mode && key == Key::Left ==> old(self).counter > i32::MIN,
            !old(self).input_mode && key == Key::Right ==> old(self).counter < i32::MAX,
        ensures
            final(self)@ == after_key(old(self)@, key),
    {
        if self.input_mode {
            match key {
                Key::Enter => {
                    self.input_mode = false;
                },
                Key::Backspace => {
                    if self.player_name.len() > 0 {
                        self.player_name.pop();
                    }
                    assert(self.player_name@ =~= after_key(old(self)@, key).player_name);
                },
                Key::Char(c) => {
                    self.player_name.push(c);
                },
                _ => {},
            }
        } else {
            match key {
                Key::Char(c) => {
                    if c == 'q' {
                        self.exit = true;
                    } else if c == 'i' {
                        self.input_mode = true;
                    }
                },
                Key::Left => {
                    self.counter = self.counter - 1;
                },
                Key::Right => {
                    self.counter = self.counter + 1;
                },
                _ => {},
            }
        }
    }

    /// The lines that the counter shows.
    pub fn content(&self) -> (lines: Vec<Vec<char>>)
        ensures
            lines@.len() == 4,
            forall|i: int| 0 <= i < 4 ==> (#[trigger] lines@[i])@ == content_lines(self@)[i],
    {
        let mut lines: Vec<Vec<char>> = Vec::new();
        lines.push(to_chars("Counter App"));
        let mut value: Vec<char> = to_chars("Value: ");
        push_signed_decimal(&mut value, self.counter as i64);
        lines.push(value);
        lines.push(to_chars("Use Left/Right to change, Q to quit, I for input mode"));
        let mut name: Vec<char> = if self.input_mode {
            to_chars("Enter Name: ")
        } else {
            to_chars("Player: ")
        };
        push_chars(&mut name, &self.player_name);
        lines.push(name);
        lines
    }

    /// The counter as it is written to a terminal of the given size, which
    /// must have a row for each line and for both borders.
    pub fn draw(&self, width: u16, height: u16) -> (out: String)
        requires
            height >= 6,
        ensures
            out@ == drawn(self@, width, height),
    {
        let wide: usize = if width < 10 {
            10
        } else {
            width as usize
        };
        let high: usize = height as usize;
        let inner: usize = wide - 2;
        let lines: Vec<Vec<char>> = self.content();
        let above: usize = (high - 4 - 2) / 2;
        let left_below: usize = high - 4 - above - 2;
        let below: usize = if left_below > 0 {
            left_below - 1
        } else {
            0
        };
        let ghost wanted: Seq<Seq<char>> = content_lines(self@);

        let mut out: Vec<char> = Vec::new();
        push_text(&mut out, "\u{250f}");
        push_repeated(&mut out, "\u{2501}", inner);
        push_text(&mut out, "\u{2513}\r\n");
        push_blank_rows(&mut out, width, inner, above);
        let ghost head: Seq<char> = out@;
        let mut i: usize = 0;
        assert(out@ =~= head + content_rows(wanted, width, 0));
        while i < 4
            invariant
                i <= 4,
                lines@.len() == 4,
                inner == frame_width(width) - 2,
                wanted == content_lines(self@),
                forall|j: int| 0 <= j < 4 ==> (#[trigger] lines@[j])@ == wanted[j],
                out@ == head + content_rows(wanted, width, i as nat),
            decreases 4 - i,
        {
            let ghost before: Seq<char> = out@;
            push_text(&mut out, "\u{2503}");
            let len: usize = lines[i].len();
            if len >= inner {
                push_chars(&mut out, &lines[i]);
            } else {
                let free: usize = inner - len;
                push_repeated(&mut out, " ", free / 2);
                push_chars(&mut out, &lines[i]);
                push_repeated(&mut out, " ", free - free / 2);
            }
            push_text(&mut out, "\u{2503}\r\n");
            assert(out@ =~= before + "\u{2503}"@ + centered(wanted[i as int], inner as int)
                + "\u{2503}\r\n"@);
            assert(out@ =~= head + content_rows(wanted, width, (i + 1) as nat));
            i = i + 1;
        }
        push_blank_rows(&mut out, width, inner, below);
        push_text(&mut out, "\u{2517}");
        push_repeated(&mut out, "\u{2501}", inner);
        push_text(&mut out, "\u{251b}\r");
        assert(out@ =~= drawn(self@, width, height));
        from_chars(&out)
    }
}

} // verus!

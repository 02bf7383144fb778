//! The window: a frame around the whole terminal with a text in its middle.

use crate::pattern::{replace_matches, replaced_all_of};
use crate::text::{from_chars, push_chars, push_text, split, split_chars, to_chars};
use unicode_width::UnicodeWidthStr;
use vstd::prelude::*;

verus! {

/// A window and the text that it shows.
pub struct Window<'a> {
    pub content: &'a str,
}

/// The pattern of the escape codes that set colours and styles. They take
/// no room on the screen.
pub const STYLE_PATTERN: &'static str = "\\x1b\\[[0-9;]*m";

/// The columns that a text takes on the screen, as `unicode-width` counts
/// them.
pub uninterp spec fn width_of(text: Seq<char>) -> nat;

/// Asks `UnicodeWidthStr::width` of `unicode-width` for the columns that a
/// text takes. The contract names the answer.
#[verifier::external_body]
fn display_width(text: &str) -> (out: usize)
    ensures
        out == width_of(text@),
{
    UnicodeWidthStr::width(text)
}

/// The columns that a line takes on the screen: those of the line without
/// its escape codes for colours and styles.
pub open spec fn visible_width(line: Seq<char>) -> nat {
    match replaced_all_of(STYLE_PATTERN@, line, ""@) {
        Some(clean) => width_of(clean),
        None => width_of(line),
    }
}

/// Measures the columns that a line takes on the screen.
pub fn measure_line(line: &str) -> (out: usize)
    ensures
        out == visible_width(line@),
{
    match replace_matches(STYLE_PATTERN, line, "") {
        Some(clean) => display_width(clean.as_str()),
        None => display_width(line),
    }
}

/// A piece of text said over a number of times.
pub open spec fn repeated(piece: Seq<char>, count: nat) -> Seq<char>
    decreases count,
{
    if count == 0 {
        Seq::empty()
    } else {
        repeated(piece, (count - 1) as nat) + piece
    }
}

/// Appends a piece of text a number of times.
pub fn push_repeated(out: &mut Vec<char>, piece: &str, count: usize)
    ensures
        final(out)@ == old(out)@ + repeated(piece@, count as nat),
{
    let mut i: usize = 0;
    assert(out@ =~= old(out)@ + repeated(piece@, 0));
    while i < count
        invariant
            i <= count,
            out@ == old(out)@ + repeated(piece@, i as nat),
        decreases count - i,
    {
        push_text(out, piece);
        assert(out@ =~= old(out)@ + repeated(piece@, (i + 1) as nat));
        i = i + 1;
    }
}

/// The width of the frame: that of the terminal, and ten columns at least.
pub open spec fn frame_width(width: u16) -> int {
    if width < 10 {
        10
    } else {
        width as int
    }
}

/// The height of the frame: that of the terminal, and five rows at least.
pub open spec fn frame_height(height: u16) -> int {
    if height < 5 {
        5
    } else {
        height as int
    }
}

/// The ornament that runs along the top and the bottom of the frame: a
/// pattern of three columns as often as it fits, and a plain line for what
/// is left.
pub open spec fn border_run(width: u16) -> Seq<char> {
    repeated("\u{257c}\u{25c8}\u{257e}"@, ((frame_width(width) - 2) / 3) as nat) + repeated(
        "\u{2501}"@,
        ((frame_width(width) - 2) % 3) as nat,
    )
}

/// The top of the frame.
pub open spec fn top_border(width: u16) -> Seq<char> {
    "\u{256d}"@ + border_run(width) + "\u{256e}"@
}

/// The bottom of the frame.
pub open spec fn bottom_border(width: u16) -> Seq<char> {
    "\u{2570}"@ + border_run(width) + "\u{256f}"@
}

/// A row of the frame with nothing in it.
pub open spec fn empty_row(width: u16) -> Seq<char> {
    "\u{2551}"@ + repeated(" "@, (frame_width(width) - 2) as nat) + "\u{2551}"@
}

/// A row of the frame with a line of text in its middle. Of the columns
/// that the line leaves free, half go to its left, rounded down, and the
/// rest to its right.
pub open spec fn text_row(width: u16, line: Seq<char>, line_width: nat) -> Seq<char> {
    let free = frame_width(width) - 2 - line_width;
    "\u{2503}"@ + repeated(" "@, (free / 2) as nat) + line + repeated(
        " "@,
        (free - free / 2) as nat,
    ) + "\u{2503}"@
}

/// The first `count` rows of text, each ended as a row of a terminal in
/// raw mode is.
pub open spec fn text_rows(
    width: u16,
    lines: Seq<Seq<char>>,
    widths: Seq<nat>,
    count: nat,
) -> Seq<char>
    decreases count,
{
    if count == 0 {
        Seq::empty()
    } else {
        text_rows(width, lines, widths, (count - 1) as nat) + text_row(
            width,
            lines[count - 1],
            widths[count - 1],
        ) + "\r\n"@
    }
}

/// The empty rows above the text: half of the rows that the text and the
/// borders leave free, rounded down.
pub open spec fn rows_above(height: u16, lines: nat) -> int {
    (frame_height(height) - lines - 2) / 2
}

/// The empty rows below the text: what is left of the free rows, less one.
pub open spec fn rows_below(height: u16, lines: nat) -> int {
    let left = frame_height(height) - lines - rows_above(height, lines) - 2;
    if left > 0 {
        left - 1
    } else {
        0
    }
}

/// Whether a text fits into the frame: its lines leave room for the two
/// borders, and each is no wider than the frame is inside.
pub open spec fn fits(width: u16, height: u16, widths: Seq<nat>) -> bool {
    &&& widths.len() + 2 <= frame_height(height)
    &&& forall|i: int| 0 <= i < widths.len() ==> #[trigger] widths[i] <= frame_width(width) - 2
}

/// The window as it is written to the terminal: the top border, the empty
/// rows above, the rows of text, the empty rows below, and the bottom
/// border. Every row but the last ends with a carriage return and a line
/// feed; the last ends with a carriage return.
pub open spec fn framed(width: u16, height: u16, lines: Seq<Seq<char>>, widths: Seq<nat>) -> Seq<
    char,
> {
    top_border(width) + "\r\n"@ + repeated(
        empty_row(width) + "\r\n"@,
        rows_above(height, lines.len()) as nat,
    ) + text_rows(width, lines, widths, lines.len()) + repeated(
        empty_row(width) + "\r\n"@,
        rows_below(height, lines.len()) as nat,
    ) + bottom_border(width) + "\r"@
}

/// The widths as natural numbers.
pub open spec fn as_nats(widths: Seq<usize>) -> Seq<nat> {
    Seq::new(widths.len(), |i: int| widths[i] as nat)
}

/// The lines of a text.
pub open spec fn lines_of(lines: Seq<Vec<char>>) -> Seq<Seq<char>> {
    Seq::new(lines.len(), |i: int| lines[i]@)
}

fn push_border_run(out: &mut Vec<char>, inner: usize)
    ensures
        final(out)@ == old(out)@ + repeated("\u{257c}\u{25c8}\u{257e}"@, (inner / 3) as nat)
            + repeated("\u{2501}"@, (inner % 3) as nat),
{
    push_repeated(out, "\u{257c}\u{25c8}\u{257e}", inner / 3);
    push_repeated(out, "\u{2501}", inner % 3);
}

fn push_empty_rows(out: &mut Vec<char>, width: u16, inner: usize, count: usize)
    requires
        inner == frame_width(width) - 2,
    ensures
        final(out)@ == old(out)@ + repeated(empty_row(width) + "\r\n"@, count as nat),
{
    let mut i: usize = 0;
    assert(out@ =~= old(out)@ + repeated(empty_row(width) + "\r\n"@, 0));
    while i < count
        invariant
            i <= count,
            inner == frame_width(width) - 2,
            out@ == old(out)@ + repeated(empty_row(width) + "\r\n"@, i as nat),
        decreases count - i,
    {
        let ghost before: Seq<char> = out@;
        push_text(out, "\u{2551}");
        push_repeated(out, " ", inner);
        push_text(out, "\u{2551}");
        push_text(out, "\r\n");
        assert(out@ =~= before + (empty_row(width) + "\r\n"@));
        assert(out@ =~= old(out)@ + repeated(empty_row(width) + "\r\n"@, (i + 1) as nat));
        i = i + 1;
    }
}

fn push_top(out: &mut Vec<char>, width: u16, inner: usize)
    requires
        inner == frame_width(width) - 2,
    ensures
        final(out)@ == old(out)@ + (top_border(width) + "\r\n"@),
{
    push_text(out, "\u{256d}");
    push_border_run(out, inner);
    push_text(out, "\u{256e}");
    push_text(out, "\r\n");
    assert(out@ =~= old(out)@ + (top_border(width) + "\r\n"@));
}

fn push_bottom(out: &mut Vec<char>, width: u16, inner: usize)
    requires
        inner == frame_width(width) - 2,
    ensures
        final(out)@ == old(out)@ + (bottom_border(width) + "\r"@),
{
    push_text(out, "\u{2570}");
    push_border_run(out, inner);
    push_text(out, "\u{256f}");
    push_text(out, "\r");
    assert(out@ =~= old(out)@ + (bottom_border(width) + "\r"@));
}

fn push_text_rows(
    out: &mut Vec<char>,
    width: u16,
    inner: usize,
    lines: &Vec<Vec<char>>,
    widths: &Vec<usize>,
)
    requires
        inner == frame_width(width) - 2,
        widths@.len() == lines@.len(),
        forall|j: int| 0 <= j < widths@.len() ==> #[trigger] widths@[j] <= inner,
    ensures
        final(out)@ == old(out)@ + text_rows(
            width,
            lines_of(lines@),
            as_nats(widths@),
            lines@.len(),
        ),
{
    let ghost all: Seq<Seq<char>> = lines_of(lines@);
    let ghost cols: Seq<nat> = as_nats(widths@);
    let mut i: usize = 0;
    assert(out@ =~= old(out)@ + text_rows(width, all, cols, 0));
    while i < lines.len()
        invariant
            i <= lines@.len(),
            widths@.len() == lines@.len(),
            all == lines_of(lines@),
            cols == as_nats(widths@),
            inner == frame_width(width) - 2,
            forall|j: int| 0 <= j < widths@.len() ==> #[trigger] widths@[j] <= inner,
            out@ == old(out)@ + text_rows(width, all, cols, i as nat),
        decreases lines@.len() - i,
    {
        let ghost before: Seq<char> = out@;
        let free: usize = inner - widths[i];
        let left: usize = free / 2;
        let right: usize = free - left;
        push_text(out, "\u{2503}");
        push_repeated(out, " ", left);
        push_chars(out, &lines[i]);
        push_repeated(out, " ", right);
        push_text(out, "\u{2503}");
        push_text(out, "\r\n");
        assert(all[i as int] == lines@[i as int]@);
        assert(cols[i as int] == widths@[i as int]);
        assert(out@ =~= before + (text_row(width, all[i as int], cols[i as int]) + "\r\n"@));
        assert(text_rows(width, all, cols, (i + 1) as nat) =~= text_rows(width, all, cols, i as nat)
            + (text_row(width, all[i as int], cols[i as int]) + "\r\n"@));
        assert(out@ =~= old(out)@ + text_rows(width, all, cols, (i + 1) as nat));
        i = i + 1;
    }
}

/// Draws the window around lines whose widths on the screen are known.
///
/// The lines must fit into the frame.
pub fn frame_text(width: u16, height: u16, lines: &Vec<Vec<char>>, widths: &Vec<usize>) -> (out:
    String)
    requires
        widths@.len() == lines@.len(),
        fits(width, height, as_nats(widths@)),
    ensures
        out@ == framed(width, height, lines_of(lines@), as_nats(widths@)),
{
    let wide: usize = if width < 10 {
        10
    } else {
        width as usize
    };
    let high: usize = if height < 5 {
        5
    } else {
        height as usize
    };
    let inner: usize = wide - 2;
    let count: usize = lines.len();
    let above: usize = (high - count - 2) / 2;
    let left_below: usize = high - count - above - 2;
    let below: usize = if left_below > 0 {
        left_below - 1
    } else {
        0
    };
    assert forall|j: int| 0 <= j < widths@.len() implies #[trigger] widths@[j] <= inner by {
        assert(as_nats(widths@)[j] == widths@[j]);
    }
    let mut out: Vec<char> = Vec::new();
    push_top(&mut out, width, inner);
    assert(out@ =~= top_border(width) + "\r\n"@);
    push_empty_rows(&mut out, width, inner, above);
    push_text_rows(&mut out, width, inner, lines, widths);
    push_empty_rows(&mut out, width, inner, below);
    push_bottom(&mut out, width, inner);
    assert(lines_of(lines@).len() == count);
    assert(out@ =~= framed(width, height, lines_of(lines@), as_nats(widths@)));
    from_chars(&out)
}

impl<'a> Window<'a> {
    /// A window that shows the given text.
    pub fn new(content: &'a str) -> (out: Self)
        ensures
            out.content@ == content@,
    {
        Window { content }
    }

    /// The lines of the text of the window.
    pub open spec fn lines(&self) -> Seq<Seq<char>> {
        split(self.content@, '\n')
    }

    /// The columns that each line takes on the screen.
    pub open spec fn widths(&self) -> Seq<nat> {
        Seq::new(self.lines().len(), |i: int| visible_width(self.lines()[i]))
    }

    /// The window as it is written to a terminal of the given size, where
    /// its text fits into the frame, and `None` where it does not.
    pub fn frame(&self, width: u16, height: u16) -> (out: Option<String>)
        ensures
            out is Some <==> fits(width, height, self.widths()),
            out matches Some(text) ==> text@ == framed(
                width,
                height,
                self.lines(),
                self.widths(),
            ),
    {
        let chars: Vec<char> = to_chars(self.content);
        let lines: Vec<Vec<char>> = split_chars(&chars, '\n');
        let wide: usize = if width < 10 {
            10
        } else {
            width as usize
        };
        let high: usize = if height < 5 {
            5
        } else {
            height as usize
        };
        if lines.len() > high - 2 {
            return None;
        }
        let mut widths: Vec<usize> = Vec::new();
        let mut i: usize = 0;
        while i < lines.len()
            invariant
                i <= lines@.len(),
                lines@.len() == self.lines().len(),
                forall|j: int| 0 <= j < lines@.len() ==> (#[trigger] lines@[j])@ == self.lines()[j],
                wide == frame_width(width),
                widths@.len() == i,
                forall|j: int| 0 <= j < i ==> #[trigger] widths@[j] == self.widths()[j],
                forall|j: int| 0 <= j < i ==> #[trigger] widths@[j] <= wide - 2,
            decreases lines@.len() - i,
        {
            let line: String = from_chars(&lines[i]);
            let columns: usize = measure_line(line.as_str());
            if columns > wide - 2 {
                assert(self.widths()[i as int] > frame_width(width) - 2);
                return None;
            }
            widths.push(columns);
            i = i + 1;
        }
        assert(as_nats(widths@) =~= self.widths());
        assert(lines_of(lines@) =~= self.lines());
        Some(frame_text(width, height, &lines, &widths))
    }
}

} // verus!

//! What the viewport shows of the text, and when it has to be drawn again.

use vstd::prelude::*;
use vstd::view::View as _;

use super::terminal::{print_row_commands, CommandView, Size, Terminal};
use buffer::{split_lines, Buffer};

pub mod buffer;

verus! {

/// The name that the welcome row shows.
pub const NAME: &'static str = "hecto";

/// The version that the welcome row shows.
pub const VERSION: &'static str = "0.1.0";

/// The text in the middle of the welcome row.
pub open spec fn welcome_banner() -> Seq<char> {
    NAME@ + " editor -- version "@ + VERSION@
}

/// `count` spaces.
pub open spec fn spaces(count: nat) -> Seq<char> {
    Seq::new(count, |i: int| ' ')
}

/// `text` cut to its first `width` characters; all of it where it has no more.
pub open spec fn truncated(text: Seq<char>, width: nat) -> Seq<char> {
    if text.len() > width {
        text.take(width as int)
    } else {
        text
    }
}

/// The number of spaces between the tilde and the banner in a row of `width` cells:
/// half of what the two leave free, rounded down.
pub open spec fn welcome_padding(width: nat) -> nat {
    if width > welcome_banner().len() {
        ((width - welcome_banner().len() - 1) / 2) as nat
    } else {
        0
    }
}

/// The welcome row for `width` cells before it is cut to the width: a tilde, the
/// padding and the banner; the tilde alone where the row cannot hold tilde and banner.
pub open spec fn decorated_banner(width: nat) -> Seq<char> {
    if width <= welcome_banner().len() {
        seq!['~']
    } else {
        seq!['~'] + spaces(welcome_padding(width)) + welcome_banner()
    }
}

/// The welcome row for `width` cells. Without any cell it is a single space.
pub open spec fn welcome_message(width: nat) -> Seq<char> {
    if width == 0 {
        seq![' ']
    } else {
        truncated(decorated_banner(width), width)
    }
}

/// In a row of at least one cell the welcome row is as long as the decorated banner or
/// as the row, whichever is less, and begins with a tilde. The decorated banner is never
/// the longer of the two, so cutting it to the width takes nothing away.
pub proof fn lemma_welcome_message_length(width: nat)
    requires
        width >= 1,
    ensures
        welcome_message(width).len() == vstd::math::min(
            width as int,
            decorated_banner(width).len() as int,
        ),
        welcome_message(width)[0] == '~',
        welcome_message(width) == decorated_banner(width),
{
}

/// The characters of a source that was read; `None` for one that could not be read.
pub open spec fn source_text(source: Option<&str>) -> Option<Seq<char>> {
    match source {
        Some(text) => Some(text@),
        None => None,
    }
}

/// What a `View` holds, as contracts see it.
pub struct ViewState {
    /// The lines of the buffer.
    pub lines: Seq<Seq<char>>,
    /// The size of the viewport.
    pub size: Size,
    /// Whether what the terminal shows is stale.
    pub needs_redraw: bool,
}

impl ViewState {
    /// The state after the viewport changed to `to`: always stale.
    pub open spec fn resized(self, to: Size) -> ViewState {
        ViewState { size: to, needs_redraw: true, ..self }
    }

    /// The state after a load. A source that was read replaces the buffer by its lines
    /// and makes the view stale; one that could not be read changes nothing.
    pub open spec fn loaded(self, source: Option<Seq<char>>) -> ViewState {
        match source {
            Some(text) => ViewState { lines: split_lines(text), needs_redraw: true, ..self },
            None => self,
        }
    }

    /// Whether `render` draws: the view is stale and the viewport has cells.
    pub open spec fn paints(self) -> bool {
        self.needs_redraw && self.size.w > 0 && self.size.h > 0
    }

    /// What row `row` of the viewport shows: the line of that number, cut to the width;
    /// below the text a tilde, but for the welcome row of an empty buffer, a third of
    /// the way down.
    pub open spec fn row_text(self, row: int) -> Seq<char> {
        if row < self.lines.len() {
            truncated(self.lines[row], self.size.w as nat)
        } else if row == self.size.h / 3 && self.lines.len() == 0 {
            welcome_message(self.size.w as nat)
        } else {
            seq!['~']
        }
    }

    /// The commands that draw the first `count` rows, from the top down.
    pub open spec fn rows(self, count: nat) -> Seq<CommandView>
        decreases count,
    {
        if count == 0 {
            Seq::empty()
        } else {
            self.rows((count - 1) as nat) + print_row_commands(
                (count - 1) as usize,
                self.row_text(count - 1),
            )
        }
    }

    /// The commands of one `render`: every row of the viewport where it draws, and
    /// nothing where it does not.
    pub open spec fn frame(self) -> Seq<CommandView> {
        if self.paints() {
            self.rows(self.size.h as nat)
        } else {
            Seq::empty()
        }
    }

    /// The state after one `render`: no longer stale where it drew, and unchanged where
    /// it did not.
    pub open spec fn rendered(self) -> ViewState {
        if self.paints() {
            ViewState { needs_redraw: false, ..self }
        } else {
            self
        }
    }
}

/// A second `render` with nothing in between draws nothing and changes nothing.
pub proof fn lemma_render_twice(state: ViewState)
    ensures
        state.rendered().frame() == Seq::<CommandView>::empty(),
        state.rendered().rendered() == state.rendered(),
{
}

/// The part of the text that the terminal shows, and whether it has to be drawn again.
pub struct View {
    buffer: Buffer,
    needs_redraw: bool,
    size: Size,
}

impl vstd::view::View for View {
    type V = ViewState;

    closed spec fn view(&self) -> ViewState {
        ViewState { lines: self.buffer@, size: self.size, needs_redraw: self.needs_redraw }
    }
}

impl View {
    /// A view of an empty buffer in a viewport of `size`, yet to be drawn.
    pub fn new(size: Size) -> (view: View)
        ensures
            view@ == (ViewState { lines: Seq::empty(), size, needs_redraw: true }),
    {
        View { buffer: Buffer::default(), needs_redraw: true, size }
    }

    /// The size of the viewport.
    pub fn size(&self) -> (size: Size)
        ensures
            size == self@.size,
    {
        self.size
    }

    /// Whether the next `render` has to draw.
    pub fn needs_redraw(&self) -> (stale: bool)
        ensures
            stale == self@.needs_redraw,
    {
        self.needs_redraw
    }

    /// The text that is shown.
    pub fn buffer(&self) -> (buffer: &Buffer)
        ensures
            buffer@ == self@.lines,
    {
        &self.buffer
    }

    /// Takes the new size of the viewport. Nothing is drawn until the next `render`.
    pub fn resize(&mut self, to: Size)
        ensures
            final(self)@ == old(self)@.resized(to),
    {
        self.size = to;
        self.needs_redraw = true;
    }

    /// Draws row `at` with `line_text`.
    fn render_line(terminal: &mut Terminal, at: usize, line_text: &str)
        ensures
            final(terminal)@ == old(terminal)@ + print_row_commands(at, line_text@),
    {
        terminal.print_row(at, line_text);
    }

    /// The welcome row for a viewport `w` cells wide.
    pub fn build_welcome_message(w: usize) -> (message: String)
        ensures
            message@ == welcome_message(w as nat),
    {
        proof {
            reveal_strlit(" ");
            reveal_strlit("~");
        }
        if w == 0 {
            assert(" "@ == seq![' ']);
            return " ".to_owned();
        }
        let mut welcome_message = NAME.to_owned();
        welcome_message.append(" editor -- version ");
        welcome_message.append(VERSION);
        let len = welcome_message.as_str().unicode_len();
        assert("~"@ == seq!['~']);
        if w <= len {
            return "~".to_owned();
        }
        let padding = (w - len - 1) / 2;
        let mut full_message = "~".to_owned();
        let mut filled: usize = 0;
        while filled < padding
            invariant
                filled <= padding,
                full_message@ == seq!['~'] + spaces(filled as nat),
                " "@ == seq![' '],
            decreases padding - filled,
        {
            full_message.append(" ");
            filled = filled + 1;
        }
        full_message.append(welcome_message.as_str());
        full_message
    }

    /// Draws the viewport anew if it is stale and has cells, row by row from the top,
    /// and is then no longer stale. Otherwise nothing is drawn and nothing changes.
    pub fn render(&mut self, terminal: &mut Terminal)
        ensures
            final(self)@ == old(self)@.rendered(),
            final(terminal)@ == old(terminal)@ + old(self)@.frame(),
    {
        if !self.needs_redraw {
            return ;
        }
        let Size { w, h } = self.size;
        if w == 0 || h == 0 {
            return ;
        }
        let vertical_center = h / 3;
        let mut current_row: usize = 0;
        while current_row < h
            invariant
                current_row <= h,
                w == self@.size.w,
                h == self@.size.h,
                vertical_center == h / 3,
                self@ == old(self)@,
                terminal@ == old(terminal)@ + self@.rows(current_row as nat),
            decreases h - current_row,
        {
            proof {
                reveal_strlit("~");
            }
            match self.buffer.line_at(current_row) {
                Some(line) => {
                    let truncated_line = if line.unicode_len() > w {
                        line.substring_char(0, w)
                    } else {
                        line
                    };
                    Self::render_line(terminal, current_row, truncated_line);
                },
                None => {
                    if current_row == vertical_center && self.buffer.is_empty() {
                        let message = Self::build_welcome_message(w);
                        Self::render_line(terminal, current_row, message.as_str());
                    } else {
                        assert("~"@ == seq!['~']);
                        Self::render_line(terminal, current_row, "~");
                    }
                },
            }
            current_row = current_row + 1;
        }
        self.needs_redraw = false;
    }

    /// Replaces the buffer by the lines of the source and makes the view stale. Where
    /// the source could not be read, `source` is `None`, and the view stays as it is.
    pub fn load(&mut self, source: Option<&str>)
        ensures
            final(self)@ == old(self)@.loaded(source_text(source)),
    {
        if let Some(text) = source {
            self.buffer = Buffer::load(text);
            self.needs_redraw = true;
        }
    }
}

} // verus!

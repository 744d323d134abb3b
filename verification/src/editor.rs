//! The editor: how events move the caret, resize the viewport and end the session, and
//! what goes to the terminal in answer.

use vstd::prelude::*;
use vstd::view::View as _;

use terminal::{
    caret_command, initialize_commands, print_commands, terminate_commands, CommandView,
    Position, Size, Terminal,
};
use view::{source_text, View, ViewState};

pub mod terminal;
pub mod view;

verus! {

/// A key of the keyboard, as far as the editor tells keys apart.
#[derive(Clone, Copy, Debug, PartialEq, Eq, Structural)]
pub enum KeyCode {
    Up,
    Down,
    Left,
    Right,
    PageUp,
    PageDown,
    Home,
    End,
    /// A key that stands for a character.
    Char(char),
    /// Any other key.
    Other,
}

/// The modifier keys held down with a key.
#[derive(Clone, Copy, Debug, PartialEq, Eq, Structural)]
pub struct KeyModifiers {
    pub shift: bool,
    pub control: bool,
    pub alt: bool,
    pub super_key: bool,
    pub hyper: bool,
    pub meta: bool,
}

impl KeyModifiers {
    /// Whether Control is held down and no other modifier is.
    pub open spec fn is_control(self) -> bool {
        self.control && !self.shift && !self.alt && !self.super_key && !self.hyper && !self.meta
    }
}

/// What happened to a key.
#[derive(Clone, Copy, Debug, PartialEq, Eq, Structural)]
pub enum KeyEventKind {
    Press,
    Repeat,
    Release,
}

/// A key with the modifiers held down and what happened to it.
#[derive(Clone, Copy, Debug, PartialEq, Eq, Structural)]
pub struct KeyEvent {
    pub code: KeyCode,
    pub modifiers: KeyModifiers,
    pub kind: KeyEventKind,
}

impl KeyEvent {
    /// Whether this is the chord that ends the session: `q` with Control alone.
    pub open spec fn is_quit(self) -> bool {
        self.code == KeyCode::Char('q') && self.modifiers.is_control()
    }
}

/// What the terminal reports to the editor.
#[derive(Clone, Copy, Debug, PartialEq, Eq, Structural)]
pub enum Event {
    /// A key event.
    Key(KeyEvent),
    /// The terminal now has this many columns and rows.
    Resize(u16, u16),
    /// Anything else.
    Other,
}

/// The cell before `at` on an axis; cell 0 stays where it is.
pub open spec fn cell_before(at: usize) -> usize {
    vstd::math::max(0, at - 1) as usize
}

/// The last cell of an axis of `cells` cells. An axis without cells is treated as if it
/// had one.
pub open spec fn last_cell(cells: usize) -> usize {
    vstd::math::max(0, cells - 1) as usize
}

/// The cell after `at` on an axis of `cells` cells, and the last cell where that would
/// lie behind it.
pub open spec fn cell_after(at: usize, cells: usize) -> usize {
    vstd::math::min(last_cell(cells) as int, at + 1) as usize
}

/// The place of the caret in the viewport: column `x` of row `y`.
#[derive(Clone, Copy, Debug, PartialEq, Eq, Structural)]
pub struct Location {
    pub x: usize,
    pub y: usize,
}

impl Default for Location {
    fn default() -> (location: Location)
        ensures
            location == (Location { x: 0, y: 0 }),
    {
        Location { x: 0, y: 0 }
    }
}

impl Location {
    /// Whether the caret is on a cell of a viewport of `size`.
    pub open spec fn within(self, size: Size) -> bool {
        self.x < size.w && self.y < size.h
    }

    /// Where `key_code` takes the caret in a viewport of `size`. The arrows move it by
    /// one cell, PageUp and PageDown to the first and last row, Home and End to the
    /// first and last column; no move leaves the viewport through an edge. Every other
    /// key leaves the caret where it is.
    pub open spec fn moved(self, key_code: KeyCode, size: Size) -> Location {
        match key_code {
            KeyCode::Up => Location { y: cell_before(self.y), ..self },
            KeyCode::Down => Location { y: cell_after(self.y, size.h), ..self },
            KeyCode::Left => Location { x: cell_before(self.x), ..self },
            KeyCode::Right => Location { x: cell_after(self.x, size.w), ..self },
            KeyCode::PageUp => Location { y: 0, ..self },
            KeyCode::PageDown => Location { y: last_cell(size.h), ..self },
            KeyCode::Home => Location { x: 0, ..self },
            KeyCode::End => Location { x: last_cell(size.w), ..self },
            _ => self,
        }
    }

    /// Whether `key_code` leaves the caret on a cell of a viewport of `size`, or brings
    /// it there. A key moves the caret along one axis only, and Up and Left by one cell
    /// only, so a caret that a shrunken viewport no longer holds need not be back after
    /// one key.
    pub open spec fn lands_within(self, key_code: KeyCode, size: Size) -> bool {
        match key_code {
            KeyCode::Up => self.x < size.w && self.y <= size.h,
            KeyCode::Left => self.x <= size.w && self.y < size.h,
            KeyCode::Down | KeyCode::PageUp | KeyCode::PageDown => self.x < size.w,
            KeyCode::Right | KeyCode::Home | KeyCode::End => self.y < size.h,
            _ => self.within(size),
        }
    }
}

/// In a viewport that has cells, the caret is on one of them after every key that
/// `lands_within` admits.
pub proof fn lemma_moved_within(location: Location, key_code: KeyCode, size: Size)
    requires
        size.w >= 1,
        size.h >= 1,
        location.lands_within(key_code, size),
    ensures
        location.moved(key_code, size).within(size),
{
}

/// `lands_within` admits every key for a caret on a cell of the viewport, and leaves
/// out only the moves after which the caret is not on one.
pub proof fn lemma_lands_within(location: Location, key_code: KeyCode, size: Size)
    requires
        size.w >= 1,
        size.h >= 1,
    ensures
        location.within(size) ==> location.lands_within(key_code, size),
        !location.lands_within(key_code, size) ==> !location.moved(key_code, size).within(size),
{
}

/// What an `Editor` holds, as contracts see it.
pub struct EditorState {
    /// Whether the session is to end.
    pub should_quit: bool,
    /// Where the caret is.
    pub location: Location,
    /// The view of the text.
    pub view: ViewState,
}

/// The line that a session ended by the user leaves on the main screen.
pub open spec fn farewell() -> Seq<char> {
    "GoodBye. \r\n"@
}

impl EditorState {
    /// The state in which a session starts: the caret in the upper left corner of a
    /// viewport of `size`, and the view yet to be drawn, with the lines of `source`
    /// where there is one and it could be read.
    pub open spec fn initial(size: Size, source: Option<Seq<char>>) -> EditorState {
        EditorState {
            should_quit: false,
            location: Location { x: 0, y: 0 },
            view: (ViewState { lines: Seq::empty(), size, needs_redraw: true }).loaded(source),
        }
    }

    /// The state after `key_code` has moved the caret within the viewport.
    pub open spec fn moved(self, key_code: KeyCode) -> EditorState {
        EditorState { location: self.location.moved(key_code, self.view.size), ..self }
    }

    /// The state after `event`. A pressed key ends the session if it is the quit chord
    /// and moves the caret otherwise; a resize gives the viewport its new size and
    /// leaves the caret alone, also where the viewport no longer holds it. Nothing else
    /// changes anything.
    pub open spec fn evaluated(self, event: Event) -> EditorState {
        match event {
            Event::Key(key) => {
                if key.kind != KeyEventKind::Press {
                    self
                } else if key.is_quit() {
                    EditorState { should_quit: true, ..self }
                } else {
                    self.moved(key.code)
                }
            },
            Event::Resize(w, h) => EditorState {
                view: self.view.resized(Size { w: w as usize, h: h as usize }),
                ..self
            },
            Event::Other => self,
        }
    }

    /// The commands of one `refresh_screen`: with the caret hidden the view draws what
    /// it has to, then the caret is put in its place and shown, and all of it is sent.
    pub open spec fn screen(self) -> Seq<CommandView> {
        seq![CommandView::Hide] + self.view.frame() + seq![
            caret_command(Position { col: self.location.x, row: self.location.y }),
            CommandView::Show,
            CommandView::Flush,
        ]
    }

    /// The state after one `refresh_screen`.
    pub open spec fn refreshed(self) -> EditorState {
        EditorState { view: self.view.rendered(), ..self }
    }

    /// The commands that end the session: the terminal is restored first, and only then
    /// does a session that the user ended say goodbye, on the main screen.
    pub open spec fn closing(self) -> Seq<CommandView> {
        if self.should_quit {
            terminate_commands() + print_commands(farewell())
        } else {
            terminate_commands()
        }
    }
}

/// The editor: the view of the text, the caret, and whether the session is to end.
pub struct Editor {
    should_quit: bool,
    location: Location,
    view: View,
}

impl vstd::view::View for Editor {
    type V = EditorState;

    closed spec fn view(&self) -> EditorState {
        EditorState {
            should_quit: self.should_quit,
            location: self.location,
            view: self.view@,
        }
    }
}

impl Editor {
    /// Starts a session on a terminal whose viewport has `size`: the terminal is set up,
    /// and the text of `source` is loaded where there is one and it could be read.
    pub fn new(terminal: &mut Terminal, size: Size, source: Option<&str>) -> (editor: Editor)
        ensures
            editor@ == EditorState::initial(size, source_text(source)),
            final(terminal)@ == old(terminal)@ + initialize_commands(),
    {
        terminal.initialize();
        let mut view = View::new(size);
        view.load(source);
        Editor { should_quit: false, location: Location::default(), view }
    }

    /// Whether the session is to end.
    pub fn should_quit(&self) -> (quit: bool)
        ensures
            quit == self@.should_quit,
    {
        self.should_quit
    }

    /// Where the caret is.
    pub fn location(&self) -> (location: Location)
        ensures
            location == self@.location,
    {
        self.location
    }

    /// The view of the text.
    pub fn viewport(&self) -> (view: &View)
        ensures
            view@ == self@.view,
    {
        &self.view
    }

    /// Handles one event and draws what has changed. The session goes on as long as
    /// the result is `true`.
    pub fn step(&mut self, event: Event, terminal: &mut Terminal) -> (running: bool)
        ensures
            final(self)@ == old(self)@.evaluated(event).refreshed(),
            final(terminal)@ == old(terminal)@ + old(self)@.evaluated(event).screen(),
            running == !final(self)@.should_quit,
    {
        self.evaluate_event(event);
        self.refresh_screen(terminal);
        !self.should_quit
    }

    /// Takes in what the terminal reported.
    pub fn evaluate_event(&mut self, event: Event)
        ensures
            final(self)@ == old(self)@.evaluated(event),
    {
        match event {
            Event::Key(KeyEvent { code, modifiers, kind: KeyEventKind::Press }) => {
                let control_alone = modifiers.control && !modifiers.shift && !modifiers.alt
                    && !modifiers.super_key && !modifiers.hyper && !modifiers.meta;
                match code {
                    KeyCode::Char('q') if control_alone => {
                        self.should_quit = true;
                    },
                    KeyCode::Up
                    | KeyCode::Down
                    | KeyCode::Left
                    | KeyCode::Right
                    | KeyCode::PageDown
                    | KeyCode::PageUp
                    | KeyCode::End
                    | KeyCode::Home => {
                        self.move_point(code);
                    },
                    _ => {},
                }
            },
            Event::Resize(w_16, h_16) => {
                self.view.resize(Size::from_cells(w_16, h_16));
            },
            _ => {},
        }
    }

    /// Moves the caret as `key_code` asks, within the viewport.
    pub fn move_point(&mut self, key_code: KeyCode)
        ensures
            final(self)@ == old(self)@.moved(key_code),
    {
        let Location { mut x, mut y } = self.location;
        let Size { w, h } = self.view.size();
        match key_code {
            KeyCode::Up => {
                y = y.saturating_sub(1);
            },
            KeyCode::Down => {
                y = Self::lesser(h.saturating_sub(1), y.saturating_add(1));
            },
            KeyCode::Left => {
                x = x.saturating_sub(1);
            },
            KeyCode::Right => {
                x = Self::lesser(w.saturating_sub(1), x.saturating_add(1));
            },
            KeyCode::PageDown => {
                y = h.saturating_sub(1);
            },
            KeyCode::PageUp => {
                y = 0;
            },
            KeyCode::Home => {
                x = 0;
            },
            KeyCode::End => {
                x = w.saturating_sub(1);
            },
            _ => (),
        }
        self.location = Location { x, y };
    }

    /// The lesser of two numbers.
    fn lesser(a: usize, b: usize) -> (least: usize)
        ensures
            least == vstd::math::min(a as int, b as int),
    {
        if a <= b {
            a
        } else {
            b
        }
    }

    /// Brings the terminal up to date with the view and the caret.
    pub fn refresh_screen(&mut self, terminal: &mut Terminal)
        ensures
            final(self)@ == old(self)@.refreshed(),
            final(terminal)@ == old(terminal)@ + old(self)@.screen(),
    {
        terminal.hide_caret();
        self.view.render(terminal);
        terminal.move_caret_to(Position { col: self.location.x, row: self.location.y });
        terminal.show_caret();
        terminal.execute();
    }

    /// Ends the session: the terminal is restored, and after that a session that the
    /// user ended says goodbye.
    pub fn shutdown(&self, terminal: &mut Terminal)
        ensures
            final(terminal)@ == old(terminal)@ + self@.closing(),
    {
        terminal.terminate();
        if self.should_quit {
            terminal.crossterm_print("GoodBye. \r\n");
        }
    }
}

} // verus!

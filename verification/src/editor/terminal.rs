//! The terminal as a queue of commands, and the sizes and positions they speak of.

use vstd::prelude::*;

verus! {

/// The size of the visible area, in character cells.
#[derive(Clone, Copy, Debug, PartialEq, Eq, Structural)]
pub struct Size {
    pub w: usize,
    pub h: usize,
}

impl Default for Size {
    fn default() -> (size: Size)
        ensures
            size == (Size { w: 0, h: 0 }),
    {
        Size { w: 0, h: 0 }
    }
}

impl Size {
    /// The size that the terminal reports as a number of columns and a number of rows.
    pub fn from_cells(columns: u16, rows: u16) -> (size: Size)
        ensures
            size == (Size { w: columns as usize, h: rows as usize }),
    {
        Size { w: columns as usize, h: rows as usize }
    }
}

/// A cell of the terminal, counted from the upper left corner.
#[derive(Clone, Copy, Debug, PartialEq, Eq, Structural)]
pub struct Position {
    pub col: usize,
    pub row: usize,
}

impl Default for Position {
    fn default() -> (position: Position)
        ensures
            position == (Position { col: 0, row: 0 }),
    {
        Position { col: 0, row: 0 }
    }
}

/// One instruction for the terminal driver.
#[derive(Debug, PartialEq, Eq)]
pub enum Command {
    /// Deliver keystrokes unbuffered and unechoed.
    EnableRawMode,
    /// Give the terminal back its line discipline.
    DisableRawMode,
    /// Switch to the alternate screen, keeping what the user had on the main one.
    EnterAlternateScreen,
    /// Switch back to the main screen.
    LeaveAlternateScreen,
    /// Clear every cell.
    ClearScreen,
    /// Clear the row the caret is on.
    ClearLine,
    /// Put the caret on a cell.
    MoveTo { col: u16, row: u16 },
    /// Hide the caret.
    Hide,
    /// Show the caret.
    Show,
    /// Write text where the caret is.
    Print(String),
    /// Send everything queued so far to the terminal.
    Flush,
}

/// A `Command` as contracts see it: its text is a sequence of characters.
pub enum CommandView {
    EnableRawMode,
    DisableRawMode,
    EnterAlternateScreen,
    LeaveAlternateScreen,
    ClearScreen,
    ClearLine,
    MoveTo { col: u16, row: u16 },
    Hide,
    Show,
    Print(Seq<char>),
    Flush,
}

impl View for Command {
    type V = CommandView;

    open spec fn view(&self) -> CommandView {
        match *self {
            Command::EnableRawMode => CommandView::EnableRawMode,
            Command::DisableRawMode => CommandView::DisableRawMode,
            Command::EnterAlternateScreen => CommandView::EnterAlternateScreen,
            Command::LeaveAlternateScreen => CommandView::LeaveAlternateScreen,
            Command::ClearScreen => CommandView::ClearScreen,
            Command::ClearLine => CommandView::ClearLine,
            Command::MoveTo { col, row } => CommandView::MoveTo { col, row },
            Command::Hide => CommandView::Hide,
            Command::Show => CommandView::Show,
            Command::Print(text) => CommandView::Print(text@),
            Command::Flush => CommandView::Flush,
        }
    }
}

/// The views of a run of commands, in the same order.
pub open spec fn command_views(commands: Seq<Command>) -> Seq<CommandView> {
    commands.map_values(|command: Command| command@)
}

/// The number of columns and of rows that the driver can address.
pub const CELL_LIMIT: usize = 0x1_0000;

/// The command that puts the caret on `pos`. The driver addresses cells by 16-bit
/// numbers; a larger coordinate wraps around.
pub open spec fn caret_command(pos: Position) -> CommandView {
    CommandView::MoveTo {
        col: (pos.col % CELL_LIMIT) as u16,
        row: (pos.row % CELL_LIMIT) as u16,
    }
}

/// What `Terminal::initialize` queues.
pub open spec fn initialize_commands() -> Seq<CommandView> {
    seq![
        CommandView::EnableRawMode,
        CommandView::EnterAlternateScreen,
        CommandView::ClearScreen,
        CommandView::Flush,
    ]
}

/// What `Terminal::terminate` queues.
pub open spec fn terminate_commands() -> Seq<CommandView> {
    seq![
        CommandView::Show,
        CommandView::LeaveAlternateScreen,
        CommandView::Flush,
        CommandView::DisableRawMode,
    ]
}

/// What `Terminal::crossterm_print` queues: the text, sent at once.
pub open spec fn print_commands(text: Seq<char>) -> Seq<CommandView> {
    seq![CommandView::Print(text), CommandView::Flush]
}

/// What `Terminal::print_row` queues: the row is cleared and `text` written from its
/// first column.
pub open spec fn print_row_commands(row: usize, text: Seq<char>) -> Seq<CommandView> {
    seq![caret_command(Position { col: 0, row }), CommandView::ClearLine] + print_commands(text)
}

/// The terminal as the editor sees it: a sink that keeps the commands it was given, in
/// the order they were issued, until the driver takes them to carry them out.
pub struct Terminal {
    queue: Vec<Command>,
}

impl View for Terminal {
    type V = Seq<CommandView>;

    closed spec fn view(&self) -> Seq<CommandView> {
        command_views(self.queue@)
    }
}

impl Terminal {
    /// A terminal with nothing queued.
    pub fn new() -> (terminal: Terminal)
        ensures
            terminal@ == Seq::<CommandView>::empty(),
    {
        Terminal { queue: Vec::new() }
    }

    /// Hands the queued commands to the caller, oldest first, and leaves the queue
    /// empty.
    pub fn take_commands(&mut self) -> (commands: Vec<Command>)
        ensures
            command_views(commands@) == old(self)@,
            final(self)@ == Seq::<CommandView>::empty(),
    {
        let mut commands: Vec<Command> = Vec::new();
        std::mem::swap(&mut self.queue, &mut commands);
        commands
    }

    /// Enters raw mode and the alternate screen, clears it, and sends all of that.
    pub fn initialize(&mut self)
        ensures
            final(self)@ == old(self)@ + initialize_commands(),
    {
        self.queue_command(Command::EnableRawMode);
        self.enter_alternate_screen();
        self.clear_screen();
        self.execute();
    }

    /// Switches to the alternate screen.
    pub fn enter_alternate_screen(&mut self)
        ensures
            final(self)@ == old(self)@.push(CommandView::EnterAlternateScreen),
    {
        self.queue_command(Command::EnterAlternateScreen);
    }

    /// Switches back to the main screen.
    pub fn leave_alternate_screen(&mut self)
        ensures
            final(self)@ == old(self)@.push(CommandView::LeaveAlternateScreen),
    {
        self.queue_command(Command::LeaveAlternateScreen);
    }

    /// Undoes `initialize`: the caret is shown again, the main screen comes back, and
    /// once that is sent raw mode ends.
    pub fn terminate(&mut self)
        ensures
            final(self)@ == old(self)@ + terminate_commands(),
    {
        self.show_caret();
        self.leave_alternate_screen();
        self.execute();
        self.queue_command(Command::DisableRawMode);
    }

    /// Clears every cell.
    pub fn clear_screen(&mut self)
        ensures
            final(self)@ == old(self)@.push(CommandView::ClearScreen),
    {
        self.queue_command(Command::ClearScreen);
    }

    /// Clears the row the caret is on.
    pub fn clear_line(&mut self)
        ensures
            final(self)@ == old(self)@.push(CommandView::ClearLine),
    {
        self.queue_command(Command::ClearLine);
    }

    /// Moves the caret to the given position.
    pub fn move_caret_to(&mut self, pos: Position)
        ensures
            final(self)@ == old(self)@.push(caret_command(pos)),
    {
        let col: u16 = (pos.col % CELL_LIMIT) as u16;
        let row: u16 = (pos.row % CELL_LIMIT) as u16;
        self.queue_command(Command::MoveTo { col, row });
    }

    /// Replaces what row `row` shows by `line_text`.
    pub fn print_row(&mut self, row: usize, line_text: &str)
        ensures
            final(self)@ == old(self)@ + print_row_commands(row, line_text@),
    {
        self.move_caret_to(Position { row, col: 0 });
        self.clear_line();
        self.crossterm_print(line_text);
    }

    /// Hides the caret.
    pub fn hide_caret(&mut self)
        ensures
            final(self)@ == old(self)@.push(CommandView::Hide),
    {
        self.queue_command(Command::Hide);
    }

    /// Shows the caret.
    pub fn show_caret(&mut self)
        ensures
            final(self)@ == old(self)@.push(CommandView::Show),
    {
        self.queue_command(Command::Show);
    }

    /// Writes `s` where the caret is and sends it at once.
    pub fn crossterm_print(&mut self, s: &str)
        ensures
            final(self)@ == old(self)@ + print_commands(s@),
    {
        self.queue_command(Command::Print(s.to_owned()));
        self.execute();
    }

    /// Puts `command` behind what is queued.
    fn queue_command(&mut self, command: Command)
        ensures
            final(self)@ == old(self)@.push(command@),
    {
        self.queue.push(command);
    }

    /// Sends everything queued so far to the terminal.
    pub fn execute(&mut self)
        ensures
            final(self)@ == old(self)@.push(CommandView::Flush),
    {
        self.queue_command(Command::Flush);
    }
}

} // verus!

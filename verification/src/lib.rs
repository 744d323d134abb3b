//! The core of a text editor for the terminal: a buffer of lines, the part of it that
//! the viewport shows, the caret, and the commands that bring the terminal up to date
//! after each event.
//!
//! Nothing here touches a terminal. The editor queues `Command`s in a `Terminal`, and a
//! driver takes them from there and carries them out; what the real terminal reports
//! comes back as `Event`s.

pub mod editor;

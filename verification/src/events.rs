//! The events that drive the prompt, and the rules by which raw terminal
//! reports become events.

use vstd::prelude::*;

verus! {

/// A key as the terminal reports it.
#[derive(Debug, Copy, Clone, PartialEq, Eq, Hash)]
pub enum Key {
    Backspace,
    Left,
    Right,
    Up,
    Down,
    Home,
    End,
    PageUp,
    PageDown,
    BackTab,
    Delete,
    Insert,
    /// A function key, by its number.
    F(u8),
    /// A plain character; the newline is the Enter key.
    Char(char),
    /// A character typed with Alt held.
    Alt(char),
    /// A character typed with Ctrl held.
    Ctrl(char),
    Null,
    Esc,
}

/// A mouse button or wheel direction.
#[derive(Debug, Copy, Clone, PartialEq, Eq, Hash)]
pub enum MouseButton {
    Left,
    Right,
    Middle,
    WheelUp,
    WheelDown,
}

/// A mouse report with its one-based column and row.
#[derive(Debug, Copy, Clone, PartialEq, Eq, Hash)]
pub enum MouseEvent {
    Press(MouseButton, u16, u16),
    Release(u16, u16),
    Hold(u16, u16),
}

/// One report read from the terminal's input stream.
#[derive(Debug, Clone, PartialEq, Eq, Hash)]
pub enum TerminalEvent {
    Key(Key),
    Mouse(MouseEvent),
    /// A byte sequence that stands for no known key or mouse report.
    Unsupported(Vec<u8>),
}

/// A request that comes from the application itself rather than from a key.
#[derive(Copy, Clone, Debug, PartialEq, Eq, Hash)]
pub enum SystemEvent {
    Exit,
}

/// What the host loop receives, one at a time.
#[derive(Clone, Debug, PartialEq, Eq, Hash)]
pub enum Event {
    Key(Key),
    Mouse(MouseEvent),
    System(SystemEvent),
    Unsupported(Vec<u8>),
    /// The terminal now has this many columns and rows.
    Resize(u16, u16),
}

impl Event {
    /// The event that a terminal report stands for: Ctrl-C asks to exit,
    /// everything else is passed on as it is.
    pub open spec fn of_terminal(report: TerminalEvent) -> Event {
        match report {
            TerminalEvent::Key(key) => if key == Key::Ctrl('c') {
                Event::System(SystemEvent::Exit)
            } else {
                Event::Key(key)
            },
            TerminalEvent::Mouse(mouse) => Event::Mouse(mouse),
            TerminalEvent::Unsupported(bytes) => Event::Unsupported(bytes),
        }
    }

    /// The event that a look at the terminal's size gives: a resize to `now`
    /// where the size differs from the one last seen, nothing where it is the
    /// same.
    pub open spec fn of_size(last: (u16, u16), now: (u16, u16)) -> Option<Event> {
        if last.0 == now.0 && last.1 == now.1 {
            None
        } else {
            Some(Event::Resize(now.0, now.1))
        }
    }

    /// Turns a terminal report into the event delivered to the host loop.
    pub fn from_terminal(report: TerminalEvent) -> (event: Event)
        ensures
            event == Event::of_terminal(report),
    {
        match report {
            TerminalEvent::Key(Key::Ctrl('c')) => Event::System(SystemEvent::Exit),
            TerminalEvent::Key(key) => Event::Key(key),
            TerminalEvent::Mouse(mouse) => Event::Mouse(mouse),
            TerminalEvent::Unsupported(bytes) => Event::Unsupported(bytes),
        }
    }

    /// Whether this event ends the stream: after it the source delivers
    /// nothing more.
    pub fn is_exit(&self) -> (exit: bool)
        ensures
            exit == (*self == Event::System(SystemEvent::Exit)),
    {
        match self {
            Event::System(SystemEvent::Exit) => true,
            _ => false,
        }
    }

    /// Compares the terminal size last seen with the size now and reports a
    /// resize exactly when they differ.
    pub fn from_size(last: (u16, u16), now: (u16, u16)) -> (event: Option<Event>)
        ensures
            event == Event::of_size(last, now),
    {
        if last.0 == now.0 && last.1 == now.1 {
            None
        } else {
            Some(Event::Resize(now.0, now.1))
        }
    }
}

} // verus!

//! The events that drive a session, and the keys they carry.

use vstd::prelude::*;

verus! {

/// Milliseconds between two ticks.
pub const TICK_RATE: u64 = 200;

/// What the session loop receives: a key press, or the periodic tick that
/// keeps the display alive.
pub enum Event<I> {
    Input(I),
    Tick,
}

/// A key of the terminal.
#[derive(Clone, Copy, Debug, PartialEq, Eq, Structural)]
pub enum Key {
    Backspace,
    Left,
    Right,
    Up,
    Down,
    Home,
    End,
    PageUp,
    PageDown,
    BackTab,
    Delete,
    Insert,
    /// A function key, by its number.
    F(u8),
    /// A plain character.
    Char(char),
    /// A character typed with Alt.
    Alt(char),
    /// A character typed with Ctrl.
    Ctrl(char),
    Null,
    Esc,
}

impl Key {
    /// Whether this is the key that ends the program: a plain `q`.
    pub open spec fn is_quit(self) -> bool {
        self == Key::Char('q')
    }

    /// Whether this is the key that ends the program.
    pub fn quits(&self) -> (res: bool)
        ensures
            res == self.is_quit(),
    {
        match *self {
            Key::Char(c) => c == 'q',
            _ => false,
        }
    }
}

/// What the keyboard reader does with a key it has read: the event to send
/// on, and whether to go on reading. Every key is sent on; the reader stops
/// behind the quit key.
pub fn forward_key(key: Key) -> (res: (Event<Key>, bool))
    ensures
        res.0 == Event::Input(key),
        res.1 == !key.is_quit(),
{
    let goes_on = !key.quits();
    (Event::Input(key), goes_on)
}

} // verus!

//! What the keyboard delivers, as far as the tabs care.

use vstd::prelude::*;

verus! {

/// A key.
#[derive(Debug, Clone, Copy, PartialEq, Eq, Structural)]
pub enum Key {
    Up,
    Down,
    Left,
    Right,
    Enter,
    Esc,
    Char(char),
    /// Any other key.
    Other,
}

/// An event of the terminal.
#[derive(Debug, Clone, Copy, PartialEq, Eq, Structural)]
pub enum InputEvent {
    /// A key went down.
    Press(Key),
    /// A key that is held or let go.
    Key(Key),
    /// Anything that is no key: the mouse, a new size, a paste.
    Other,
}

} // verus!

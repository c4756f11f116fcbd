//! The key presses that drive the pages.
use vstd::prelude::*;

verus! {

/// A key press, as far as the pages tell keys apart.
#[derive(Clone, Copy, PartialEq, Eq, Structural, Debug)]
pub enum Key {
    Up,
    Down,
    Left,
    Right,
    Enter,
    Esc,
    Tab,
    Backspace,
    /// A printable character
    Char(char),
    /// Ctrl+C, which always quits
    Interrupt,
    /// Any other key
    Other,
}

} // verus!

use vstd::prelude::*;

verus! {

/// A mouse button, as reported by the terminal.
#[derive(Debug, Clone, Copy, PartialEq, Eq, Structural, Hash)]
pub enum MouseButton {
    Left,
    Right,
    Middle,
    WheelUp,
    WheelDown,
}

/// A mouse event with its (1-based) column and row.
#[derive(Debug, Clone, Copy, PartialEq, Eq, Structural, Hash)]
pub enum MouseEvent {
    Press(MouseButton, u16, u16),
    Release(u16, u16),
    Hold(u16, u16),
}

/// A key press.
#[derive(Debug, Clone, Copy, PartialEq, Eq, Structural, Hash)]
pub enum Key {
    Backspace,
    Left,
    Right,
    Up,
    Down,
    Home,
    End,
    PageUp,
    PageDown,
    Delete,
    Insert,
    /// Function key `F(n)`.
    F(u8),
    /// A plain Unicode scalar.
    Char(char),
    /// Alt together with a scalar.
    Alt(char),
    /// Ctrl together with a letter or digit.
    Ctrl(char),
    Null,
    Esc,
}

/// One input event read from the terminal.
#[derive(Debug, Clone, Copy, PartialEq, Eq, Structural, Hash)]
pub enum Event {
    Key(Key),
    Mouse(MouseEvent),
}

} // verus!

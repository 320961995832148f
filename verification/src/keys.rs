//! Keyboard input as the application sees it.

use vstd::prelude::*;

verus! {

/// A key that was pressed.
#[derive(Clone, Copy, Debug, PartialEq, Eq, Structural)]
pub enum KeyCode {
    Char(char),
    Enter,
    Esc,
    Backspace,
    Delete,
    Left,
    Right,
    Up,
    Down,
    Home,
    End,
    Tab,
    BackTab,
    /// Any other key (function keys, page keys, ...).
    Other,
}

/// A key press together with the state of the Control modifier.
#[derive(Clone, Copy, Debug, PartialEq, Eq, Structural)]
pub struct KeyEvent {
    pub code: KeyCode,
    pub ctrl: bool,
}

impl KeyEvent {
    /// A key press without modifiers.
    pub fn plain(code: KeyCode) -> (r: KeyEvent)
        ensures
            r.code == code,
            !r.ctrl,
    {
        KeyEvent { code, ctrl: false }
    }
}

} // verus!

//! Key presses, as the screens read them.

use vstd::prelude::*;

verus! {

/// The key that was pressed. Keys that no screen reads are `Other`.
#[derive(Debug, Clone, Copy, PartialEq, Eq, Structural)]
pub enum KeyCode {
    Char(char),
    Backspace,
    Enter,
    Tab,
    Esc,
    Up,
    Down,
    Other,
}

/// A key press: the key, and whether Control was held.
#[derive(Debug, Clone, Copy, PartialEq, Eq, Structural)]
pub struct KeyEvent {
    pub code: KeyCode,
    pub control: bool,
}

impl KeyEvent {
    /// The press of `code` alone.
    pub fn plain(code: KeyCode) -> (key: KeyEvent)
        ensures
            key.code == code,
            !key.control,
    {
        KeyEvent { code, control: false }
    }

    /// The press of `code` with Control held.
    pub fn with_control(code: KeyCode) -> (key: KeyEvent)
        ensures
            key.code == code,
            key.control,
    {
        KeyEvent { code, control: true }
    }

    /// Whether this is the press of the character `c`, with or without Control.
    pub open spec fn is_char(self, c: char) -> bool {
        self.code == KeyCode::Char(c)
    }

    /// Whether the key moves a selection up: the up arrow or `k`.
    pub open spec fn is_up(self) -> bool {
        self.code == KeyCode::Up || self.is_char('k')
    }

    /// Whether the key moves a selection down: the down arrow or `j`.
    pub open spec fn is_down(self) -> bool {
        self.code == KeyCode::Down || self.is_char('j')
    }

    /// Whether the key picks what is selected: Enter or the space bar.
    pub open spec fn is_pick(self) -> bool {
        self.code == KeyCode::Enter || self.is_char(' ')
    }
}

} // verus!

//! Key presses as the views read them.
//!
//! A key event of the terminal carries more than the views look at. These
//! types hold what they do look at: the key, whether it was pressed, repeated
//! or released, and whether Shift and Control were held.

use vstd::prelude::*;

verus! {

/// The key of a key event.
#[derive(Debug, Clone, Copy, PartialEq, Eq, Structural)]
pub enum KeyCode {
    Backspace,
    Enter,
    Up,
    Down,
    Esc,
    /// A character key.
    Char(char),
    /// Any key that no view reacts to.
    Other,
}

/// What happened to the key.
#[derive(Debug, Clone, Copy, PartialEq, Eq, Structural)]
pub enum KeyEventKind {
    Press,
    Repeat,
    Release,
}

/// The modifier keys that the views look at.
#[derive(Debug, Clone, Copy, PartialEq, Eq, Structural)]
pub struct KeyModifiers {
    pub shift: bool,
    pub control: bool,
}

/// A key event.
#[derive(Debug, Clone, Copy, PartialEq, Eq, Structural)]
pub struct KeyEvent {
    pub code: KeyCode,
    pub modifiers: KeyModifiers,
    pub kind: KeyEventKind,
}

impl KeyEvent {
    /// A press of `code` with no modifier held.
    pub fn press(code: KeyCode) -> (key: KeyEvent)
        ensures
            key == (KeyEvent {
                code,
                modifiers: KeyModifiers { shift: false, control: false },
                kind: KeyEventKind::Press,
            }),
    {
        KeyEvent {
            code,
            modifiers: KeyModifiers { shift: false, control: false },
            kind: KeyEventKind::Press,
        }
    }
}

} // verus!

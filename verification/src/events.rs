//! Keys and the events that drive a session.
use crate::models::Response;
use vstd::prelude::*;

verus! {

/// The key that was pressed.
#[derive(Debug, Clone, Copy, PartialEq, Eq, Structural)]
pub enum KeyCode {
    Char(char),
    Up,
    Down,
    Enter,
    Esc,
    Backspace,
    Tab,
    BackTab,
    Other,
}

/// The modifier keys that were held down.
#[derive(Debug, Clone, Copy, PartialEq, Eq, Structural)]
pub struct KeyModifiers {
    pub shift: bool,
    pub control: bool,
    pub alt: bool,
    pub other: bool,
}

impl KeyModifiers {
    /// Whether no modifier is held.
    pub open spec fn is_none(self) -> bool {
        !self.shift && !self.control && !self.alt && !self.other
    }

    /// Whether the control key is held, and no other modifier.
    pub open spec fn is_control_only(self) -> bool {
        !self.shift && self.control && !self.alt && !self.other
    }

    /// No modifier held.
    pub fn none() -> (m: KeyModifiers)
        ensures
            m.is_none(),
    {
        KeyModifiers { shift: false, control: false, alt: false, other: false }
    }

    /// The control key held, and no other modifier.
    pub fn control() -> (m: KeyModifiers)
        ensures
            m.is_control_only(),
    {
        KeyModifiers { shift: false, control: true, alt: false, other: false }
    }
}

/// One key press.
#[derive(Debug, Clone, Copy, PartialEq, Eq, Structural)]
pub struct KeyEvent {
    pub code: KeyCode,
    pub modifiers: KeyModifiers,
}

/// What reaches the controller: a key press, or news of an execution.
pub enum AppEvent {
    Key(KeyEvent),
    ExecutionStarted,
    ExecutionCompleted(Response),
    ExecutionFailed(String),
    Quit,
}

/// Whether `key` asks to leave: `c` with the control key alone, or `q` with
/// no modifier.
pub open spec fn asks_to_quit(key: KeyEvent) -> bool {
    ||| key.code == KeyCode::Char('c') && key.modifiers.is_control_only()
    ||| key.code == KeyCode::Char('q') && key.modifiers.is_none()
}

/// Tells whether `key` asks to leave.
pub fn should_quit(key: &KeyEvent) -> (r: bool)
    ensures
        r == asks_to_quit(*key),
{
    let m = key.modifiers;
    match key.code {
        KeyCode::Char(c) => {
            (c == 'c' && m.control && !m.shift && !m.alt && !m.other) || (c == 'q' && !m.control
                && !m.shift && !m.alt && !m.other)
        },
        _ => false,
    }
}

} // verus!

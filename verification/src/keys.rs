//! Key events as the dialogs receive them from the terminal.

use vstd::prelude::*;

verus! {

/// The key that was pressed.
#[derive(Debug, Clone, Copy, PartialEq, Eq, Structural)]
pub enum KeyCode {
    /// A printable character
    Char(char),
    /// Enter / Return
    Enter,
    /// Escape
    Esc,
    /// Backspace
    Backspace,
    /// Delete
    Delete,
    /// Tab
    Tab,
    /// Shift+Tab as reported by the terminal
    BackTab,
    /// Arrow up
    Up,
    /// Arrow down
    Down,
    /// Arrow left
    Left,
    /// Arrow right
    Right,
    /// Home
    Home,
    /// End
    End,
    /// Page up
    PageUp,
    /// Page down
    PageDown,
    /// Any other key
    Other,
}

/// Modifier keys held during a key press.
#[derive(Debug, Clone, Copy, PartialEq, Eq, Structural)]
pub struct KeyModifiers {
    /// Shift held
    pub shift: bool,
    /// Control held
    pub control: bool,
    /// Alt held
    pub alt: bool,
    /// Any other modifier (super, hyper, meta) held
    pub other: bool,
}

impl KeyModifiers {
    /// No modifier held.
    pub fn none() -> (m: Self)
        ensures
            m.is_empty_spec(),
    {
        KeyModifiers { shift: false, control: false, alt: false, other: false }
    }

    /// Only shift held.
    pub fn shift() -> (m: Self)
        ensures
            m.shift && !m.control && !m.alt && !m.other,
    {
        KeyModifiers { shift: true, control: false, alt: false, other: false }
    }

    /// Only control held.
    pub fn control() -> (m: Self)
        ensures
            m.control && !m.shift && !m.alt && !m.other,
    {
        KeyModifiers { shift: false, control: true, alt: false, other: false }
    }

    /// No modifier held.
    pub open spec fn is_empty_spec(&self) -> bool {
        !self.shift && !self.control && !self.alt && !self.other
    }

    /// Exactly control held.
    pub open spec fn is_control_only(&self) -> bool {
        self.control && !self.shift && !self.alt && !self.other
    }

    /// Whether no modifier is held.
    pub fn is_empty(&self) -> (b: bool)
        ensures
            b == self.is_empty_spec(),
    {
        !self.shift && !self.control && !self.alt && !self.other
    }
}

/// A key press: the key and the modifiers held.
#[derive(Debug, Clone, Copy, PartialEq, Eq, Structural)]
pub struct KeyEvent {
    /// The key
    pub code: KeyCode,
    /// The modifiers
    pub modifiers: KeyModifiers,
}

impl KeyEvent {
    /// Creates a key event.
    pub fn new(code: KeyCode, modifiers: KeyModifiers) -> (k: Self)
        ensures
            k.code == code,
            k.modifiers == modifiers,
    {
        KeyEvent { code, modifiers }
    }
}

} // verus!

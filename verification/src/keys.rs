//! Key presses as plain values.

use vstd::prelude::*;

verus! {

/// The key that was pressed.
#[derive(Debug, Clone, Copy, PartialEq, Eq, Structural)]
pub enum Key {
    /// A key that types a character.
    Char(char),
    /// Escape.
    Esc,
    /// Enter.
    Enter,
    /// Tab.
    Tab,
    /// Shift and Tab.
    BackTab,
    /// Backspace.
    Backspace,
    /// Delete.
    Delete,
    /// The up arrow.
    Up,
    /// The down arrow.
    Down,
    /// The left arrow.
    Left,
    /// The right arrow.
    Right,
    /// Home.
    Home,
    /// End.
    End,
    /// Page up.
    PageUp,
    /// Page down.
    PageDown,
    /// A function key.
    Function(u8),
    /// Any other key.
    Other,
}

/// The modifiers that were held.
#[derive(Debug, Clone, Copy, PartialEq, Eq, Structural)]
pub struct KeyModifiers {
    /// Whether Control was held.
    pub control: bool,
    /// Whether Alt was held.
    pub alt: bool,
    /// Whether Shift was held.
    pub shift: bool,
}

impl KeyModifiers {
    /// No modifier.
    pub open spec fn spec_none() -> KeyModifiers {
        KeyModifiers { control: false, alt: false, shift: false }
    }

    /// No modifier.
    pub fn none() -> (r: KeyModifiers)
        ensures
            r == KeyModifiers::spec_none(),
    {
        KeyModifiers { control: false, alt: false, shift: false }
    }

    /// Control alone.
    pub open spec fn spec_ctrl() -> KeyModifiers {
        KeyModifiers { control: true, alt: false, shift: false }
    }

    /// Control alone.
    pub fn ctrl() -> (r: KeyModifiers)
        ensures
            r == KeyModifiers::spec_ctrl(),
    {
        KeyModifiers { control: true, alt: false, shift: false }
    }

    /// Whether no modifier is held.
    pub open spec fn empty(self) -> bool {
        !self.control && !self.alt && !self.shift
    }

    /// Whether no modifier is held.
    pub fn is_empty(&self) -> (r: bool)
        ensures
            r == self.empty(),
    {
        !self.control && !self.alt && !self.shift
    }
}

/// One key press.
#[derive(Debug, Clone, Copy, PartialEq, Eq, Structural)]
pub struct KeyEvent {
    /// The key.
    pub code: Key,
    /// The modifiers held with it.
    pub modifiers: KeyModifiers,
}

impl KeyEvent {
    /// A press of `code` with `modifiers`.
    pub fn new(code: Key, modifiers: KeyModifiers) -> (r: KeyEvent)
        ensures
            r == (KeyEvent { code, modifiers }),
    {
        KeyEvent { code, modifiers }
    }

    /// A press of a character key alone.
    pub open spec fn spec_char(c: char) -> KeyEvent {
        KeyEvent { code: Key::Char(c), modifiers: KeyModifiers::spec_none() }
    }

    /// A press of a character key alone.
    pub fn char(c: char) -> (r: KeyEvent)
        ensures
            r == KeyEvent::spec_char(c),
    {
        KeyEvent { code: Key::Char(c), modifiers: KeyModifiers::none() }
    }

    /// A press of a character key with Control.
    pub open spec fn spec_ctrl(c: char) -> KeyEvent {
        KeyEvent { code: Key::Char(c), modifiers: KeyModifiers::spec_ctrl() }
    }

    /// A press of a character key with Control.
    pub fn ctrl(c: char) -> (r: KeyEvent)
        ensures
            r == KeyEvent::spec_ctrl(c),
    {
        KeyEvent { code: Key::Char(c), modifiers: KeyModifiers::ctrl() }
    }

    /// A press of a key that types nothing, alone.
    pub open spec fn spec_key(code: Key) -> KeyEvent {
        KeyEvent { code, modifiers: KeyModifiers::spec_none() }
    }

    /// A press of a key that types nothing, alone.
    pub fn key(code: Key) -> (r: KeyEvent)
        ensures
            r == KeyEvent::spec_key(code),
    {
        KeyEvent { code, modifiers: KeyModifiers::none() }
    }

    /// The character that the press types, if it types one: a character key with
    /// at most Shift.
    pub open spec fn spec_plain_char(self) -> Option<char> {
        match self.code {
            Key::Char(c) if !self.modifiers.control && !self.modifiers.alt => Some(c),
            _ => None,
        }
    }

    /// The character that the press types, if it types one.
    pub fn plain_char(&self) -> (r: Option<char>)
        ensures
            r == self.spec_plain_char(),
    {
        match self.code {
            Key::Char(c) if !self.modifiers.control && !self.modifiers.alt => Some(c),
            _ => None,
        }
    }

    /// Whether this is Control and `c`.
    pub open spec fn spec_is_ctrl(self, c: char) -> bool {
        self.code == Key::Char(c) && self.modifiers.control
    }

    /// Whether this is Control and `c`.
    pub fn is_ctrl(&self, c: char) -> (r: bool)
        ensures
            r == self.spec_is_ctrl(c),
    {
        self.modifiers.control && match self.code {
            Key::Char(d) => d == c,
            _ => false,
        }
    }
}

} // verus!

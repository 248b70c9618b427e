//! Key presses as the interface reads them: a key code plus modifier flags.
//!
//! The terminal backend's events are converted into these values at the edge
//! of the program, so every decision about a key is made on plain data.

use vstd::prelude::*;

verus! {

/// Which key was pressed.
#[derive(Debug, Clone, Copy, PartialEq, Eq, Structural)]
pub enum KeyCode {
    /// Backspace.
    Backspace,
    /// Enter / Return.
    Enter,
    /// Left arrow.
    Left,
    /// Right arrow.
    Right,
    /// Up arrow.
    Up,
    /// Down arrow.
    Down,
    /// Home.
    Home,
    /// End.
    End,
    /// Page up.
    PageUp,
    /// Page down.
    PageDown,
    /// Tab.
    Tab,
    /// Shift-Tab.
    BackTab,
    /// Delete.
    Delete,
    /// Insert.
    Insert,
    /// A function key, `F(1)` for F1.
    F(u8),
    /// A character key.
    Char(char),
    /// Null.
    Null,
    /// Escape.
    Esc,
    /// Any other key (media, lock, and lone modifier keys).
    Other,
}

/// The modifier keys held during a key press, as bit flags.
#[derive(Debug, Clone, Copy, PartialEq, Eq, Structural)]
pub struct KeyModifiers {
    /// The flag bits: shift `1`, control `2`, alt `4`, super `8`, hyper `16`,
    /// meta `32`.
    pub bits: u8,
}

impl KeyModifiers {
    /// No modifier.
    pub fn none() -> (r: KeyModifiers)
        ensures
            r.bits == 0,
    {
        KeyModifiers { bits: 0 }
    }

    /// Shift.
    pub fn shift() -> (r: KeyModifiers)
        ensures
            r.bits == 1,
    {
        KeyModifiers { bits: 1 }
    }

    /// Control.
    pub fn control() -> (r: KeyModifiers)
        ensures
            r.bits == 2,
    {
        KeyModifiers { bits: 2 }
    }

    /// Alt.
    pub fn alt() -> (r: KeyModifiers)
        ensures
            r.bits == 4,
    {
        KeyModifiers { bits: 4 }
    }

    /// Whether any flag of `other` is also set here.
    pub fn intersects(self, other: KeyModifiers) -> (r: bool)
        ensures
            r == (self.bits & other.bits != 0),
    {
        self.bits & other.bits != 0
    }

    /// Whether every flag of `other` is also set here.
    pub fn contains(self, other: KeyModifiers) -> (r: bool)
        ensures
            r == (self.bits & other.bits == other.bits),
    {
        self.bits & other.bits == other.bits
    }

    /// The flags of both sets.
    pub fn union(self, other: KeyModifiers) -> (r: KeyModifiers)
        ensures
            r.bits == self.bits | other.bits,
    {
        KeyModifiers { bits: self.bits | other.bits }
    }
}

/// A key press: the key and the modifiers held with it.
#[derive(Debug, Clone, Copy, PartialEq, Eq, Structural)]
pub struct KeyEvent {
    /// The key.
    pub code: KeyCode,
    /// The modifiers held.
    pub modifiers: KeyModifiers,
}

impl KeyEvent {
    /// A key press of `code` with `modifiers`.
    pub fn new(code: KeyCode, modifiers: KeyModifiers) -> (r: KeyEvent)
        ensures
            r.code == code,
            r.modifiers == modifiers,
    {
        KeyEvent { code, modifiers }
    }
}

/// Whether a key press holds control or alt.
pub open spec fn has_control_or_alt(m: KeyModifiers) -> bool {
    m.bits & 6u8 != 0
}

} // verus!

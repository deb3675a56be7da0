//! Terminal-independent key input types. The application shell translates
//! terminal events into these, so the reducer never depends on a terminal
//! backend.
use vstd::prelude::*;

verus! {

/// A key code (the subset the application acts on).
#[derive(Debug, Clone, Copy, PartialEq, Eq, Structural)]
pub enum KeyCode {
    /// A character key.
    Char(char),
    /// Enter / Return.
    Enter,
    /// Escape.
    Esc,
    /// Backspace.
    Backspace,
    /// Tab.
    Tab,
    /// Shift+Tab.
    BackTab,
    /// Up arrow.
    Up,
    /// Down arrow.
    Down,
    /// Left arrow.
    Left,
    /// Right arrow.
    Right,
    /// Any other key the app does not act on.
    Other,
}

/// Active keyboard modifiers (only the ones the app cares about).
#[derive(Debug, Clone, Copy, PartialEq, Eq, Default, Structural)]
pub struct KeyMods {
    /// Control held.
    pub ctrl: bool,
    /// Shift held.
    pub shift: bool,
}

/// Whether every modifier set in `other` is also set in `m`.
pub open spec fn mods_contain(m: KeyMods, other: KeyMods) -> bool {
    (!other.ctrl || m.ctrl) && (!other.shift || m.shift)
}

impl KeyMods {
    /// No modifiers.
    pub fn none() -> (r: KeyMods)
        ensures
            r == (KeyMods { ctrl: false, shift: false }),
    {
        KeyMods { ctrl: false, shift: false }
    }

    /// Control only.
    pub fn control() -> (r: KeyMods)
        ensures
            r == (KeyMods { ctrl: true, shift: false }),
    {
        KeyMods { ctrl: true, shift: false }
    }

    /// Shift only.
    pub fn shift() -> (r: KeyMods)
        ensures
            r == (KeyMods { ctrl: false, shift: true }),
    {
        KeyMods { ctrl: false, shift: true }
    }

    /// Whether every modifier set in `other` is also set in `self`.
    pub fn contains(self, other: KeyMods) -> (r: bool)
        ensures
            r == mods_contain(self, other),
    {
        (!other.ctrl || self.ctrl) && (!other.shift || self.shift)
    }
}

/// A key press: a code plus the active modifiers.
#[derive(Debug, Clone, Copy, PartialEq, Eq, Structural)]
pub struct KeyPress {
    /// The key code.
    pub code: KeyCode,
    /// The active modifiers.
    pub modifiers: KeyMods,
}

impl KeyPress {
    /// Construct a key press.
    pub fn new(code: KeyCode, modifiers: KeyMods) -> (r: Self)
        ensures
            r.code == code,
            r.modifiers == modifiers,
    {
        KeyPress { code, modifiers }
    }
}

} // verus!

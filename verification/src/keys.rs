//! The key presses the screens react to, as plain values.

use vstd::prelude::*;

verus! {

/// One decoded key press, reduced to the keys the screens react to.
/// Anything else arrives as `Other` and is ignored everywhere.
#[derive(Clone, Copy, PartialEq, Eq, Structural, Debug)]
pub enum Key {
    Char(char),
    Left,
    Right,
    Up,
    Down,
    Enter,
    Backspace,
    Tab,
    Esc,
    Home,
    End,
    Other,
}

/// A key press together with whether the Control modifier alone was held.
#[derive(Clone, Copy, PartialEq, Eq, Structural, Debug)]
pub struct KeyInput {
    pub code: Key,
    pub ctrl: bool,
}

impl KeyInput {
    /// The global kill combination: Ctrl-C quits regardless of the
    /// active screen and takes precedence over screen key handling.
    pub fn is_kill(&self) -> (r: bool)
        ensures
            r == (self.code == Key::Char('c') && self.ctrl),
    {
        self.code == Key::Char('c') && self.ctrl
    }

    /// A key press without the Control modifier.
    pub fn plain(code: Key) -> (r: KeyInput)
        ensures
            r == (KeyInput { code, ctrl: false }),
    {
        KeyInput { code, ctrl: false }
    }

    /// A key press with the Control modifier held.
    pub fn with_ctrl(code: Key) -> (r: KeyInput)
        ensures
            r == (KeyInput { code, ctrl: true }),
    {
        KeyInput { code, ctrl: true }
    }
}

} // verus!

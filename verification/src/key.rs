//! The keys that the frames tell apart.

use vstd::prelude::*;

verus! {

/// One keystroke, as far as the frames care: Escape, a character, Enter, or
/// anything else.
#[derive(Clone, Copy, Debug, PartialEq, Eq, Structural)]
pub enum Key {
    Escape,
    Char(char),
    Enter,
    Other,
}

impl Key {
    /// Enter, whether it arrives under its own name or as the line feed it
    /// sends.
    pub open spec fn is_enter(self) -> bool {
        self is Enter || self == Key::Char('\n')
    }

    /// Tells whether this key is Enter.
    pub fn enter(&self) -> (b: bool)
        ensures
            b == self.is_enter(),
    {
        match self {
            Key::Enter => true,
            Key::Char(c) => *c == '\n',
            _ => false,
        }
    }
}

} // verus!

//! Key strokes, as the loops read them.

use vstd::prelude::*;

verus! {

/// A key event: whether it is a press (not a release or a repeat), and the
/// character of the key where it has one.
#[derive(Clone, Copy, Debug)]
pub struct KeyStroke {
    pub pressed: bool,
    pub symbol: Option<char>,
}

impl KeyStroke {
    /// A press of `q` or `Q` ends a loop.
    pub open spec fn is_quit(self) -> bool {
        self.pressed && (self.symbol == Some('q') || self.symbol == Some('Q'))
    }

    /// Whether the key stroke ends a loop.
    pub fn quits(&self) -> (b: bool)
        ensures
            b == self.is_quit(),
    {
        if !self.pressed {
            return false;
        }
        match self.symbol {
            Some(c) => c == 'q' || c == 'Q',
            None => false,
        }
    }
}

/// Whether what a poll brought asks to quit: nothing does not.
pub open spec fn asks_to_quit(key: Option<KeyStroke>) -> bool {
    match key {
        Some(k) => k.is_quit(),
        None => false,
    }
}

/// Whether what a poll brought asks to quit.
pub fn wants_quit(key: &Option<KeyStroke>) -> (b: bool)
    ensures
        b == asks_to_quit(*key),
{
    match key {
        Some(k) => k.quits(),
        None => false,
    }
}

} // verus!

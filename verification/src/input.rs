use vstd::prelude::*;

verus! {

/// A pressed key, as the screens see it. The runtime maps the terminal's
/// key events onto this; anything the screens never react to maps to
/// `Other`.
#[derive(Clone, Copy, PartialEq, Eq, Structural, Debug)]
pub enum Key {
    Char(char),
    Up,
    Down,
    Right,
    Enter,
    Esc,
    Backspace,
    Other,
}

} // verus!

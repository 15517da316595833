//! The key vocabulary that screens consume, and the result of one key press.

use vstd::prelude::*;

verus! {

/// One decoded terminal key press. Everything outside this closed vocabulary
/// arrives as `Other`, which every screen ignores.
#[derive(Clone, Copy, Debug, PartialEq, Eq, Structural)]
pub enum Key {
    Up,
    Down,
    Left,
    Right,
    Enter,
    Backspace,
    Escape,
    Char(char),
    Other,
}

/// What a screen reports after handling one key press: either the interaction
/// goes on, or it is finished and carries the screen's typed result.
#[derive(Debug, PartialEq, Eq)]
pub enum Step<R> {
    Continue,
    Done(R),
}

} // verus!

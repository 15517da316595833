//! The yes/no confirmation screen.
//!
//! `y` or `Enter` answers yes, `n` or `Escape` answers no; every other key is
//! ignored. `Enter` meaning yes makes the affirmative answer the default.

use vstd::prelude::*;

use crate::keys::{Key, Step};

verus! {

/// What the prompt reports for one key press.
pub open spec fn confirm_outcome(key: Key) -> Step<bool> {
    if key is Enter || key == Key::Char('y') {
        Step::Done(true)
    } else if key is Escape || key == Key::Char('n') {
        Step::Done(false)
    } else {
        Step::Continue
    }
}

/// A yes/no prompt showing `question`. The prompt itself carries no further
/// state: its answer is decided by a single key press.
pub struct ConfirmPrompt {
    pub question: String,
}

impl ConfirmPrompt {
    pub fn new(question: String) -> (s: ConfirmPrompt)
        ensures
            s.question == question,
    {
        ConfirmPrompt { question }
    }

    pub fn handle_key(&self, key: Key) -> (r: Step<bool>)
        ensures
            r == confirm_outcome(key),
    {
        match key {
            Key::Enter => Step::Done(true),
            Key::Escape => Step::Done(false),
            Key::Char(c) => if c == 'y' {
                Step::Done(true)
            } else if c == 'n' {
                Step::Done(false)
            } else {
                Step::Continue
            },
            _ => Step::Continue,
        }
    }
}

} // verus!

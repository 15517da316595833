//! The message-display screen: a fixed notice that waits for `Escape`.

use vstd::prelude::*;

use crate::keys::{Key, Step};

verus! {

/// What the display reports for one key press: only `Escape` dismisses it.
pub open spec fn message_outcome(key: Key) -> Step<()> {
    if key is Escape {
        Step::Done(())
    } else {
        Step::Continue
    }
}

/// A screen that shows `message` until the user presses `Escape`. It carries
/// no interactive state and produces no result value.
pub struct MessageDisplay {
    pub message: String,
}

impl MessageDisplay {
    pub fn new(message: String) -> (s: MessageDisplay)
        ensures
            s.message == message,
    {
        MessageDisplay { message }
    }

    pub fn handle_key(&self, key: Key) -> (r: Step<()>)
        ensures
            r == message_outcome(key),
    {
        match key {
            Key::Escape => Step::Done(()),
            _ => Step::Continue,
        }
    }
}

} // verus!

//! The list-selector screen: a cursor over a non-empty item list.
//!
//! `Up` and `Down` move the cursor by one position; whether moving past an end
//! wraps around or stays put is a per-instance policy. `Enter` finishes with
//! the cursor position, `Escape` or `q` with nothing.

use vstd::arithmetic::div_mod::{
    lemma_add_mod_noop, lemma_mod_add_multiples_vanish, lemma_mod_bound, lemma_mod_twice,
    lemma_small_mod,
};
use vstd::prelude::*;

use crate::keys::{Key, Step};

verus! {

/// Whether moving past the last or first item returns to the opposite end
/// (`Circular`) or leaves the cursor where it is (`Clamped`).
#[derive(Clone, Copy, Debug, PartialEq, Eq, Structural)]
pub enum WrapPolicy {
    Circular,
    Clamped,
}

/// Cursor position after one `Down` press.
pub open spec fn next_cursor(c: int, n: int, policy: WrapPolicy) -> int {
    match policy {
        WrapPolicy::Circular => (c + 1) % n,
        WrapPolicy::Clamped => if c + 1 < n {
            c + 1
        } else {
            c
        },
    }
}

/// Cursor position after one `Up` press.
pub open spec fn prev_cursor(c: int, n: int, policy: WrapPolicy) -> int {
    match policy {
        WrapPolicy::Circular => if c == 0 {
            n - 1
        } else {
            c - 1
        },
        WrapPolicy::Clamped => if c == 0 {
            0
        } else {
            c - 1
        },
    }
}

/// Cursor position after one arbitrary key press; keys other than `Up` and
/// `Down` leave the cursor alone.
pub open spec fn moved_cursor(c: int, n: int, policy: WrapPolicy, key: Key) -> int {
    match key {
        Key::Up => prev_cursor(c, n, policy),
        Key::Down => next_cursor(c, n, policy),
        _ => c,
    }
}

/// What the selector reports for one key press made while the cursor is at `c`.
pub open spec fn selector_outcome(c: usize, key: Key) -> Step<Option<usize>> {
    if key is Enter {
        Step::Done(Some(c))
    } else if key is Escape || key == Key::Char('q') {
        Step::Done(None)
    } else {
        Step::Continue
    }
}

/// Cursor position after a whole sequence of key presses, first press first.
pub open spec fn cursor_after(c: int, n: int, policy: WrapPolicy, keys: Seq<Key>) -> int
    decreases keys.len(),
{
    if keys.len() == 0 {
        c
    } else {
        cursor_after(moved_cursor(c, n, policy, keys[0]), n, policy, keys.drop_first())
    }
}

/// A list-selector screen over the labels in `items`.
#[derive(Debug)]
pub struct ListSelector {
    pub items: Vec<String>,
    pub cursor: usize,
    pub policy: WrapPolicy,
}

impl ListSelector {
    /// The cursor always points at an item of the non-empty list.
    pub open spec fn wf(self) -> bool {
        self.items@.len() > 0 && self.cursor < self.items@.len()
    }

    pub fn new(items: Vec<String>, policy: WrapPolicy) -> (s: ListSelector)
        requires
            items@.len() > 0,
        ensures
            s.items == items,
            s.cursor == 0,
            s.policy == policy,
            s.wf(),
    {
        ListSelector { items, cursor: 0, policy }
    }

    pub fn handle_key(&mut self, key: Key) -> (r: Step<Option<usize>>)
        requires
            old(self).wf(),
        ensures
            final(self).wf(),
            final(self).items == old(self).items,
            final(self).policy == old(self).policy,
            final(self).cursor == moved_cursor(
                old(self).cursor as int,
                old(self).items@.len() as int,
                old(self).policy,
                key,
            ),
            r == selector_outcome(old(self).cursor, key),
    {
        let n = self.items.len();
        match key {
            Key::Up => {
                self.cursor = match self.policy {
                    WrapPolicy::Circular => if self.cursor == 0 {
                        n - 1
                    } else {
                        self.cursor - 1
                    },
                    WrapPolicy::Clamped => if self.cursor == 0 {
                        0
                    } else {
                        self.cursor - 1
                    },
                };
                Step::Continue
            },
            Key::Down => {
                self.cursor = match self.policy {
                    WrapPolicy::Circular => (self.cursor + 1) % n,
                    WrapPolicy::Clamped => if self.cursor + 1 < n {
                        self.cursor + 1
                    } else {
                        self.cursor
                    },
                };
                Step::Continue
            },
            Key::Enter => Step::Done(Some(self.cursor)),
            Key::Escape => Step::Done(None),
            Key::Char(c) => if c == 'q' {
                Step::Done(None)
            } else {
                Step::Continue
            },
            _ => Step::Continue,
        }
    }
}

/// One key press keeps the cursor inside `[0, n)`.
proof fn lemma_moved_cursor_in_bounds(c: int, n: int, policy: WrapPolicy, key: Key)
    requires
        0 <= c < n,
    ensures
        0 <= moved_cursor(c, n, policy, key) <= n - 1,
{
    if key is Down && policy is Circular {
        lemma_mod_bound(c + 1, n);
    }
}

/// No sequence of key presses can move the cursor out of `[0, n)`: every
/// position the selector can reach from a valid one is itself valid.
pub proof fn lemma_cursor_stays_in_bounds(c: int, n: int, policy: WrapPolicy, keys: Seq<Key>)
    requires
        0 <= c < n,
    ensures
        0 <= cursor_after(c, n, policy, keys) < n,
    decreases keys.len(),
{
    if keys.len() > 0 {
        lemma_moved_cursor_in_bounds(c, n, policy, keys[0]);
        lemma_cursor_stays_in_bounds(
            moved_cursor(c, n, policy, keys[0]),
            n,
            policy,
            keys.drop_first(),
        );
    }
}

/// With the circular policy, `k` presses of `Down` land on `(c + k) % n`.
proof fn lemma_downs_add(c: int, n: int, k: nat)
    requires
        0 <= c < n,
    ensures
        cursor_after(c, n, WrapPolicy::Circular, Seq::new(k, |i: int| Key::Down)) == (c + k) % n,
    decreases k,
{
    let downs = Seq::new(k, |i: int| Key::Down);
    if k == 0 {
        lemma_small_mod(c as nat, n as nat);
    } else {
        let a = (c + 1) % n;
        lemma_mod_bound(c + 1, n);
        assert(downs.drop_first() =~= Seq::new((k - 1) as nat, |i: int| Key::Down));
        lemma_downs_add(a, n, (k - 1) as nat);
        // (a + (k - 1)) % n == (c + k) % n
        lemma_mod_twice(c + 1, n);
        lemma_add_mod_noop(a, k - 1, n);
        lemma_add_mod_noop(c + 1, k - 1, n);
    }
}

/// With the circular policy over `n` items, pressing `Down` exactly `n` times
/// returns the cursor to its starting position.
pub proof fn lemma_wrap_round_trip(c: int, n: int)
    requires
        0 <= c < n,
    ensures
        cursor_after(c, n, WrapPolicy::Circular, Seq::new(n as nat, |i: int| Key::Down)) == c,
{
    lemma_downs_add(c, n, n as nat);
    lemma_mod_add_multiples_vanish(c, n);
    lemma_small_mod(c as nat, n as nat);
}

} // verus!

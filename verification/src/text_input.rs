//! The free-text input screen.
//!
//! Printable keys append to a buffer, `Backspace` removes the last character
//! (a no-op on an empty buffer), and `Enter`, `Escape` or `q` finish with the
//! buffer trimmed of leading and trailing whitespace. The engine imposes no
//! length limit on the buffer.

use vstd::prelude::*;

use crate::keys::{Key, Step};
use crate::strutil::str_chars;

verus! {

/// The characters Unicode assigns the White_Space property; these and only
/// these are stripped from the ends of the finished input.
pub open spec fn is_whitespace_char(c: char) -> bool {
    ||| c == '\u{0009}'
    ||| c == '\u{000A}'
    ||| c == '\u{000B}'
    ||| c == '\u{000C}'
    ||| c == '\u{000D}'
    ||| c == '\u{0020}'
    ||| c == '\u{0085}'
    ||| c == '\u{00A0}'
    ||| c == '\u{1680}'
    ||| c == '\u{2000}'
    ||| c == '\u{2001}'
    ||| c == '\u{2002}'
    ||| c == '\u{2003}'
    ||| c == '\u{2004}'
    ||| c == '\u{2005}'
    ||| c == '\u{2006}'
    ||| c == '\u{2007}'
    ||| c == '\u{2008}'
    ||| c == '\u{2009}'
    ||| c == '\u{200A}'
    ||| c == '\u{2028}'
    ||| c == '\u{2029}'
    ||| c == '\u{202F}'
    ||| c == '\u{205F}'
    ||| c == '\u{3000}'
}

fn char_is_whitespace(c: char) -> (r: bool)
    ensures
        r == is_whitespace_char(c),
{
    match c {
        '\u{0009}' | '\u{000A}' | '\u{000B}' | '\u{000C}' | '\u{000D}' | '\u{0020}'
        | '\u{0085}' | '\u{00A0}' | '\u{1680}' | '\u{2000}' | '\u{2001}' | '\u{2002}'
        | '\u{2003}' | '\u{2004}' | '\u{2005}' | '\u{2006}' | '\u{2007}' | '\u{2008}'
        | '\u{2009}' | '\u{200A}' | '\u{2028}' | '\u{2029}' | '\u{202F}' | '\u{205F}'
        | '\u{3000}' => true,
        _ => false,
    }
}

/// `s` with its leading whitespace removed.
pub open spec fn trim_front_spec(s: Seq<char>) -> Seq<char>
    decreases s.len(),
{
    if s.len() > 0 && is_whitespace_char(s[0]) {
        trim_front_spec(s.drop_first())
    } else {
        s
    }
}

/// `s` with its trailing whitespace removed.
pub open spec fn trim_back_spec(s: Seq<char>) -> Seq<char>
    decreases s.len(),
{
    if s.len() > 0 && is_whitespace_char(s[s.len() - 1]) {
        trim_back_spec(s.drop_last())
    } else {
        s
    }
}

/// `s` with whitespace removed from both ends.
pub open spec fn trimmed(s: Seq<char>) -> Seq<char> {
    trim_back_spec(trim_front_spec(s))
}

/// If everything before position `lo` is whitespace and `lo` is the first
/// non-whitespace position (or the end), trimming the front keeps exactly the
/// suffix from `lo` on.
proof fn lemma_trim_front_at(s: Seq<char>, lo: int)
    requires
        0 <= lo <= s.len(),
        forall|j: int| 0 <= j < lo ==> is_whitespace_char(s[j]),
        lo == s.len() || !is_whitespace_char(s[lo]),
    ensures
        trim_front_spec(s) == s.subrange(lo, s.len() as int),
    decreases lo,
{
    if lo == 0 {
        assert(s.subrange(0, s.len() as int) =~= s);
    } else {
        lemma_trim_front_at(s.drop_first(), lo - 1);
        assert(s.drop_first().subrange(lo - 1, s.drop_first().len() as int) =~= s.subrange(
            lo,
            s.len() as int,
        ));
    }
}

/// If everything from position `hi` on is whitespace and `hi` is just past the
/// last non-whitespace position (or zero), trimming the back keeps exactly the
/// prefix up to `hi`.
proof fn lemma_trim_back_at(s: Seq<char>, hi: int)
    requires
        0 <= hi <= s.len(),
        forall|j: int| hi <= j < s.len() ==> is_whitespace_char(s[j]),
        hi == 0 || !is_whitespace_char(s[hi - 1]),
    ensures
        trim_back_spec(s) == s.subrange(0, hi),
    decreases s.len() - hi,
{
    if hi == s.len() {
        assert(s.subrange(0, s.len() as int) =~= s);
    } else {
        lemma_trim_back_at(s.drop_last(), hi);
        assert(s.drop_last().subrange(0, hi) =~= s.subrange(0, hi));
    }
}

/// Trimming an all-whitespace sequence leaves nothing.
pub proof fn lemma_trim_all_whitespace(s: Seq<char>)
    requires
        forall|i: int| 0 <= i < s.len() ==> is_whitespace_char(s[i]),
    ensures
        trimmed(s) == Seq::<char>::empty(),
{
    lemma_trim_front_at(s, s.len() as int);
    assert(s.subrange(s.len() as int, s.len() as int) =~= Seq::<char>::empty());
}

fn trim_chars(s: &Vec<char>) -> (r: Vec<char>)
    ensures
        r@ == trimmed(s@),
{
    let len = s.len();
    let mut lo: usize = 0;
    while lo < len && char_is_whitespace(s[lo])
        invariant
            0 <= lo <= len,
            len == s@.len(),
            forall|j: int| 0 <= j < lo ==> is_whitespace_char(s@[j]),
        decreases len - lo,
    {
        lo = lo + 1;
    }
    let mut hi: usize = len;
    while hi > lo && char_is_whitespace(s[hi - 1])
        invariant
            lo <= hi <= len,
            len == s@.len(),
            forall|j: int| hi <= j < len ==> is_whitespace_char(s@[j]),
        decreases hi,
    {
        hi = hi - 1;
    }
    let mut r: Vec<char> = Vec::new();
    let mut i: usize = lo;
    while i < hi
        invariant
            lo <= i <= hi <= len,
            len == s@.len(),
            r@ == s@.subrange(lo as int, i as int),
        decreases hi - i,
    {
        r.push(s[i]);
        assert(r@ =~= s@.subrange(lo as int, i + 1));
        i = i + 1;
    }
    proof {
        lemma_trim_front_at(s@, lo as int);
        let t = s@.subrange(lo as int, len as int);
        lemma_trim_back_at(t, hi - lo);
        assert(t.subrange(0, hi - lo) =~= s@.subrange(lo as int, hi as int));
    }
    r
}

/// Builds a `String` from exactly the given characters.
///
/// Relies on `FromIterator<char> for String`: collecting characters yields the
/// string containing those characters in order.
#[verifier::external_body]
fn chars_to_string(s: &Vec<char>) -> (r: String)
    ensures
        r@ == s@,
{
    s.iter().collect()
}

/// `s` with whitespace removed from both ends, as the screens and the
/// scaffolding decisions use it.
pub fn trim_str(s: &str) -> (r: String)
    ensures
        r@ == trimmed(s@),
{
    let cs = str_chars(s);
    let t = trim_chars(&cs);
    chars_to_string(&t)
}

/// The buffer contents after one key press.
pub open spec fn buffer_after(buf: Seq<char>, key: Key) -> Seq<char> {
    match key {
        Key::Char(c) => if c == 'q' {
            buf
        } else {
            buf.push(c)
        },
        Key::Backspace => if buf.len() == 0 {
            buf
        } else {
            buf.drop_last()
        },
        _ => buf,
    }
}

/// The keys that finish the input.
pub open spec fn input_finished(key: Key) -> bool {
    key is Enter || key is Escape || key == Key::Char('q')
}

/// A free-text input screen showing `prompt` above the buffer typed so far.
pub struct TextInput {
    pub prompt: String,
    pub buffer: Vec<char>,
}

impl TextInput {
    pub fn new(prompt: String) -> (s: TextInput)
        ensures
            s.prompt == prompt,
            s.buffer@ == Seq::<char>::empty(),
    {
        TextInput { prompt, buffer: Vec::new() }
    }

    /// What the screen would return if the input finished now.
    pub fn current_result(&self) -> (r: String)
        ensures
            r@ == trimmed(self.buffer@),
    {
        let t = trim_chars(&self.buffer);
        chars_to_string(&t)
    }

    pub fn handle_key(&mut self, key: Key) -> (r: Step<String>)
        ensures
            final(self).prompt == old(self).prompt,
            final(self).buffer@ == buffer_after(old(self).buffer@, key),
            r is Done <==> input_finished(key),
            (r matches Step::Done(s) ==> s@ == trimmed(old(self).buffer@)),
    {
        match key {
            Key::Enter | Key::Escape => Step::Done(self.current_result()),
            Key::Char(c) => {
                if c == 'q' {
                    Step::Done(self.current_result())
                } else {
                    self.buffer.push(c);
                    Step::Continue
                }
            },
            Key::Backspace => {
                if self.buffer.len() > 0 {
                    self.buffer.pop();
                }
                Step::Continue
            },
            _ => Step::Continue,
        }
    }
}

} // verus!

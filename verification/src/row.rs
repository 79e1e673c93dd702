//! One line of text, addressed by Unicode scalar value.

use vstd::math::{max, min};
use vstd::prelude::*;

verus! {

/// A line of text. Positions and lengths count Unicode scalar values, never
/// bytes, so a window onto a row cannot split a character.
pub struct Row {
    string: String,
    len: usize,
}

impl View for Row {
    type V = Seq<char>;

    closed spec fn view(&self) -> Seq<char> {
        self.string@
    }
}

/// The window `[start, end)` of `text`, with both bounds clamped to the
/// text's length and an inverted window read as empty.
pub open spec fn window(text: Seq<char>, start: nat, end: nat) -> Seq<char> {
    let e = min(end as int, text.len() as int);
    let s = min(start as int, e);
    text.subrange(s, e)
}

/// A window holds as many characters as lie between its clamped bounds, and
/// none where the bounds are inverted.
pub proof fn lemma_window_len(text: Seq<char>, start: nat, end: nat)
    ensures
        window(text, start, end).len() == max(
            0,
            min(end as int, text.len() as int) - min(start as int, text.len() as int),
        ),
        start <= end <= text.len() ==> window(text, start, end) == text.subrange(
            start as int,
            end as int,
        ),
        start >= text.len() || start >= end ==> window(text, start, end) == Seq::<char>::empty(),
{
}

impl Row {
    #[verifier::type_invariant]
    spec fn inv(self) -> bool {
        self.len == self.string@.len()
    }

    /// A row holding `text`.
    pub fn new(text: &str) -> (row: Row)
        ensures
            row@ == text@,
    {
        let len: usize = text.unicode_len();
        Row { string: String::from_str(text), len }
    }

    /// The number of characters in the row.
    pub fn len(&self) -> (n: usize)
        ensures
            n == self@.len(),
    {
        proof {
            use_type_invariant(self);
        }
        self.len
    }

    /// Whether the row holds no character.
    pub fn is_empty(&self) -> (b: bool)
        ensures
            b == (self@.len() == 0),
    {
        proof {
            use_type_invariant(self);
        }
        self.len == 0
    }

    /// The characters in `[start, end)`. Bounds past the end of the row are
    /// clamped to it and `start > end` gives the empty string: a viewport may
    /// ask for any range.
    pub fn render(&self, start: usize, end: usize) -> (text: String)
        ensures
            text@ == window(self@, start as nat, end as nat),
            text@.len() == max(
                0,
                min(end as int, self@.len() as int) - min(start as int, self@.len() as int),
            ),
    {
        proof {
            use_type_invariant(self);
            lemma_window_len(self@, start as nat, end as nat);
        }
        let end = if end <= self.len { end } else { self.len };
        let start = if start <= end { start } else { end };
        String::from_str(self.string.as_str().substring_char(start, end))
    }
}

} // verus!

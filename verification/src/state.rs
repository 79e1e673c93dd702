//! The viewer as mathematics: its state, the rule that moves the cursor, the
//! rule that scrolls the viewport, the text of a frame, and what holds of
//! them.

use crate::row::window;
use crate::terminal::{
    clear_line_sequence, clear_screen_sequence, cursor_sequence, hide_sequence, show_sequence,
    Key,
};
use vstd::math::{max, min};
use vstd::prelude::*;

verus! {

/// A `Position` as a pair of natural numbers.
pub struct Point {
    pub x: nat,
    pub y: nat,
}

/// The title that opens the welcome banner; the version tag follows it.
pub open spec fn title() -> Seq<char> {
    "Hecto editor -- version "@
}

/// What stands on a screen row that shows no row of the document.
pub open spec fn placeholder() -> Seq<char> {
    "~"@
}

/// What closes every drawn row.
pub open spec fn line_break() -> Seq<char> {
    "\r\n"@
}

/// What the last frame says.
pub open spec fn farewell() -> Seq<char> {
    "Goodbye.\r"@
}

/// The key that ends the session.
pub open spec fn is_quit(key: Key) -> bool {
    key == Key::Ctrl('c')
}

/// The keys that move the cursor.
pub open spec fn is_navigation(key: Key) -> bool {
    match key {
        Key::Up | Key::Down | Key::Left | Key::Right => true,
        Key::PageUp | Key::PageDown | Key::Home | Key::End => true,
        _ => false,
    }
}

/// Where the viewport starts along one axis once it has followed the
/// cursor. It moves only when the cursor has left it, and then no further
/// than puts the cursor on its first or last cell. A viewport without
/// extent cannot hold the cursor: it starts just past it, as far as the
/// machine can count.
pub open spec fn scrolled_along(cursor: nat, offset: nat, extent: nat) -> nat {
    if cursor < offset {
        cursor
    } else if cursor < offset + extent {
        offset
    } else if extent > 0 {
        (cursor - extent + 1) as nat
    } else {
        min((cursor + 1) as int, usize::MAX as int) as nat
    }
}

/// The state of a viewer, as mathematics.
pub struct EditorState {
    /// Whether the session is over.
    pub quit: bool,
    /// The columns of the terminal.
    pub width: nat,
    /// The rows of the terminal.
    pub height: nat,
    /// The cursor, in the document.
    pub cursor: Point,
    /// The cell of the document in the top left corner of the screen.
    pub offset: Point,
    /// The rows of the document.
    pub document: Seq<Seq<char>>,
    /// The version tag of the welcome banner.
    pub version: Seq<char>,
}

impl EditorState {
    /// The state a viewer starts in: running, with the cursor and the
    /// viewport at the origin.
    pub open spec fn initial(
        document: Seq<Seq<char>>,
        width: nat,
        height: nat,
        version: Seq<char>,
    ) -> EditorState {
        EditorState {
            quit: false,
            width,
            height,
            cursor: Point { x: 0, y: 0 },
            offset: Point { x: 0, y: 0 },
            document,
            version,
        }
    }

    /// The length of row `y`; zero where the document has no such row.
    pub open spec fn row_len(self, y: nat) -> nat {
        if y < self.document.len() {
            self.document[y as int].len()
        } else {
            0
        }
    }

    /// The cursor lies on a row of the document or just below the last one,
    /// and within that row or just past its end.
    pub open spec fn cursor_in_document(self) -> bool {
        &&& self.cursor.y <= self.document.len()
        &&& self.cursor.x <= self.row_len(self.cursor.y)
    }

    /// The cursor lies inside the viewport, along each axis on which the
    /// viewport has any extent.
    pub open spec fn cursor_in_view(self) -> bool {
        &&& self.width > 0 ==> self.offset.x <= self.cursor.x < self.offset.x + self.width
        &&& self.height > 0 ==> self.offset.y <= self.cursor.y < self.offset.y + self.height
    }

    /// Where `key` takes the cursor. A vertical move stops at the first row
    /// and just below the last; a horizontal one at the ends of the row. On
    /// its new row the cursor never stands past the end.
    pub open spec fn moved(self, key: Key) -> Point {
        let x = self.cursor.x as int;
        let y = self.cursor.y as int;
        let rows = self.document.len() as int;
        let to_y = match key {
            Key::Up => max(y - 1, 0),
            Key::Down => min(y + 1, rows),
            Key::PageUp => max(y - self.height, 0),
            Key::PageDown => min(y + self.height, rows),
            _ => y,
        };
        let to_x = match key {
            Key::Left => max(x - 1, 0),
            Key::Right => min(x + 1, self.row_len(self.cursor.y) as int),
            Key::Home => 0,
            Key::End => self.row_len(self.cursor.y) as int,
            _ => x,
        };
        Point { x: min(to_x, self.row_len(to_y as nat) as int) as nat, y: to_y as nat }
    }

    /// Where the viewport starts once it has followed the cursor.
    pub open spec fn scrolled(self) -> Point {
        Point {
            x: scrolled_along(self.cursor.x, self.offset.x, self.width),
            y: scrolled_along(self.cursor.y, self.offset.y, self.height),
        }
    }

    /// The state after `key`: the quit key ends the session, a navigation
    /// key moves the cursor, any other key does nothing; then the viewport
    /// follows the cursor.
    pub open spec fn after_key(self, key: Key) -> EditorState {
        let at = EditorState {
            quit: self.quit || is_quit(key),
            cursor: if is_navigation(key) { self.moved(key) } else { self.cursor },
            ..self
        };
        EditorState { offset: at.scrolled(), ..at }
    }

    /// The welcome banner: a tilde, the padding that centres the message,
    /// and the message, cut to the width of the terminal.
    pub open spec fn welcome(self) -> Seq<char> {
        let message = title() + self.version;
        let padding = max(self.width - message.len(), 0) / 2;
        let spaces = Seq::new(max(padding - 1, 0) as nat, |i: int| ' ');
        window(placeholder() + spaces + message, 0, self.width)
    }

    /// The number of screen rows that a frame draws: all but the last.
    pub open spec fn drawn_rows(self) -> nat {
        max(self.height - 1, 0) as nat
    }

    /// What screen row `r` shows: the part of the document row behind it
    /// that the viewport covers; the welcome banner, a third of the way
    /// down an empty document; a tilde otherwise.
    pub open spec fn line(self, r: nat) -> Seq<char> {
        let y = self.offset.y + r;
        if y < self.document.len() {
            window(self.document[y as int], self.offset.x, self.offset.x + self.width)
        } else if self.document.len() == 0 && r == self.height / 3 {
            self.welcome()
        } else {
            placeholder()
        }
    }

    /// The text that draws the first `n` screen rows: each row is cleared,
    /// written and closed by a line break.
    pub open spec fn drawn(self, n: nat) -> Seq<char>
        decreases n,
    {
        if n == 0 {
            Seq::empty()
        } else {
            self.drawn((n - 1) as nat) + clear_line_sequence() + self.line((n - 1) as nat)
                + line_break()
        }
    }

    /// The text of one frame. It hides the cursor and moves it to the
    /// origin. A session that is over then clears the screen and says
    /// goodbye; a running one draws its rows and puts the cursor where it
    /// stands within the viewport. Last, the cursor is shown again.
    pub open spec fn frame(self) -> Seq<char> {
        let body = if self.quit {
            clear_screen_sequence() + farewell()
        } else {
            self.drawn(self.drawn_rows()) + cursor_sequence(
                max(self.cursor.x - self.offset.x, 0) as nat,
                max(self.cursor.y - self.offset.y, 0) as nat,
            )
        };
        hide_sequence() + cursor_sequence(0, 0) + body + show_sequence()
    }

    /// The frame of a session that is over, whatever else the state holds.
    pub open spec fn last_frame() -> Seq<char> {
        hide_sequence() + cursor_sequence(0, 0) + clear_screen_sequence() + farewell()
            + show_sequence()
    }

    /// The state a session ends in when `keys` arrive in order. A session
    /// that is over reads no key.
    pub open spec fn after_keys(self, keys: Seq<Key>) -> EditorState
        decreases keys.len(),
    {
        if self.quit || keys.len() == 0 {
            self
        } else {
            self.after_key(keys[0]).after_keys(keys.drop_first())
        }
    }

    /// The frames of a session in which `keys` arrive in order: one frame
    /// before each key that is read, and one more when the session is over
    /// or the keys have run out.
    pub open spec fn session(self, keys: Seq<Key>) -> Seq<Seq<char>>
        decreases keys.len(),
    {
        if self.quit || keys.len() == 0 {
            seq![self.frame()]
        } else {
            seq![self.frame()] + self.after_key(keys[0]).session(keys.drop_first())
        }
    }
}

/// The quit key ends a session: the next frame clears the screen and says
/// goodbye, it is the last one, and no key after the quit key is read.
pub proof fn lemma_quit_ends_session(state: EditorState, keys: Seq<Key>)
    requires
        !state.quit,
        keys.len() > 0,
        is_quit(keys[0]),
    ensures
        state.after_key(keys[0]).quit,
        state.after_key(keys[0]).frame() == EditorState::last_frame(),
        state.session(keys) == seq![state.frame(), EditorState::last_frame()],
        state.after_keys(keys) == state.after_key(keys[0]),
{
    let end = state.after_key(keys[0]);
    assert(end.frame() == EditorState::last_frame());
    assert(end.session(keys.drop_first()) == seq![end.frame()]);
    assert(end.after_keys(keys.drop_first()) == end);
    assert(seq![state.frame()] + seq![end.frame()] == seq![state.frame(), end.frame()]);
}

/// A viewer starts with its cursor in the document and, on a terminal with
/// any extent, inside the viewport.
pub proof fn lemma_initial(document: Seq<Seq<char>>, width: nat, height: nat, version: Seq<char>)
    ensures
        EditorState::initial(document, width, height, version).cursor_in_document(),
        EditorState::initial(document, width, height, version).cursor_in_view(),
{
}

/// Once the viewport has followed the cursor, the cursor is inside it,
/// wherever the two stood before.
pub proof fn lemma_scrolled_in_view(state: EditorState)
    ensures
        (EditorState { offset: state.scrolled(), ..state }).cursor_in_view(),
{
}

/// A viewport that holds the cursor stays where it is.
pub proof fn lemma_scrolled_is_minimal(state: EditorState)
    requires
        state.width > 0,
        state.height > 0,
        state.cursor_in_view(),
    ensures
        state.scrolled() == state.offset,
{
}

/// The bounds of the single moves. Down and Page Down stop just below the
/// last row and Right stops just past the end of the row; Up, Page Up and
/// Left stop at zero and never move the other way.
pub proof fn lemma_moved_bounds(state: EditorState, key: Key)
    ensures
        key == Key::Down || key == Key::PageDown ==> state.moved(key).y <= state.document.len(),
        key == Key::Right ==> state.moved(key).x <= state.row_len(state.cursor.y),
        key == Key::Up || key == Key::PageUp ==> 0 <= state.moved(key).y <= state.cursor.y,
        key == Key::Left ==> 0 <= state.moved(key).x <= state.cursor.x,
        state.cursor.y > 0 ==> state.moved(Key::Up).y == state.cursor.y - 1,
        state.cursor.y == 0 ==> state.moved(Key::Up).y == 0,
        state.cursor.x == 0 ==> state.moved(Key::Left).x == 0,
{
}

/// No key takes the cursor out of the document: it stays on a row or just
/// below the last one, and within its row or just past the end.
pub proof fn lemma_moved_in_document(state: EditorState, key: Key)
    requires
        state.cursor_in_document(),
    ensures
        (EditorState { cursor: state.moved(key), ..state }).cursor_in_document(),
        !is_navigation(key) ==> state.moved(key) == state.cursor,
{
}

/// Every key leaves the cursor in the document and, on a terminal with
/// any extent, inside the viewport.
pub proof fn lemma_after_key(state: EditorState, key: Key)
    requires
        state.cursor_in_document(),
    ensures
        state.after_key(key).cursor_in_document(),
        state.after_key(key).cursor_in_view(),
{
}

/// A session keeps what it starts with: while keys arrive, the cursor
/// stays in the document and inside the viewport.
pub proof fn lemma_session_keeps_invariants(state: EditorState, keys: Seq<Key>)
    requires
        state.cursor_in_document(),
        state.cursor_in_view(),
    ensures
        state.after_keys(keys).cursor_in_document(),
        state.after_keys(keys).cursor_in_view(),
    decreases keys.len(),
{
    if !state.quit && keys.len() > 0 {
        lemma_after_key(state, keys[0]);
        lemma_session_keeps_invariants(state.after_key(keys[0]), keys.drop_first());
    }
}

} // verus!

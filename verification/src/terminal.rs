//! The terminal as the viewer sees it: its dimensions, the keys it reports
//! and the control sequences it obeys.
//!
//! A sequence is text for the caller to write to the device. Every sequence
//! comes from `termion`; this module states which characters each one is.

use crate::editor::Position;
use vstd::prelude::*;

verus! {

/// The dimensions of the terminal, in character cells.
#[derive(Clone, Copy, Debug, PartialEq, Eq)]
pub struct Size {
    pub width: u16,
    pub height: u16,
}

/// One decoded key press.
#[derive(Clone, Copy, Debug, PartialEq, Eq)]
pub enum Key {
    Up,
    Down,
    Left,
    Right,
    PageUp,
    PageDown,
    Home,
    End,
    /// A character typed as it is.
    Char(char),
    /// A character typed with the control key held.
    Ctrl(char),
    /// Any key the viewer has no use for.
    Other,
}

/// The two characters that introduce every control sequence.
pub open spec fn csi() -> Seq<char> {
    seq!['\u{1b}', '[']
}

/// The sequence that clears the whole screen.
pub open spec fn clear_screen_sequence() -> Seq<char> {
    csi() + seq!['2', 'J']
}

/// The sequence that clears the line the cursor is on.
pub open spec fn clear_line_sequence() -> Seq<char> {
    csi() + seq!['2', 'K']
}

/// The sequence that hides the cursor.
pub open spec fn hide_sequence() -> Seq<char> {
    csi() + seq!['?', '2', '5', 'l']
}

/// The sequence that shows the cursor.
pub open spec fn show_sequence() -> Seq<char> {
    csi() + seq!['?', '2', '5', 'h']
}

/// The character of a decimal digit.
pub open spec fn digit(d: nat) -> char
    recommends
        d < 10,
{
    seq!['0', '1', '2', '3', '4', '5', '6', '7', '8', '9'][d as int]
}

/// A number in decimal, without sign or leading zero.
pub open spec fn decimal(n: nat) -> Seq<char>
    decreases n,
{
    if n < 10 {
        seq![digit(n)]
    } else {
        decimal(n / 10).push(digit(n % 10))
    }
}

/// The sequence that moves the cursor to `column` and `row`, both counted
/// from one. The row comes first on the wire.
pub open spec fn goto_sequence(column: nat, row: nat) -> Seq<char> {
    csi() + decimal(row) + seq![';'] + decimal(column) + seq!['H']
}

/// The one-based screen coordinate of a zero-based one, held to what the
/// wire format can carry.
pub open spec fn screen_cell(n: nat) -> nat {
    if n + 1 <= u16::MAX {
        n + 1
    } else {
        u16::MAX as nat
    }
}

/// The sequence that moves the cursor to the zero-based cell `(x, y)`.
pub open spec fn cursor_sequence(x: nat, y: nat) -> Seq<char> {
    goto_sequence(screen_cell(x), screen_cell(y))
}

/// `termion::clear::All`, formatted: the escape character, `[`, `2`, `J`.
#[verifier::external_body]
fn clear_all() -> (sequence: String)
    ensures
        sequence@ == clear_screen_sequence(),
{
    format!("{}", termion::clear::All)
}

/// `termion::clear::CurrentLine`, formatted: the escape character, `[`, `2`,
/// `K`.
#[verifier::external_body]
fn clear_line() -> (sequence: String)
    ensures
        sequence@ == clear_line_sequence(),
{
    format!("{}", termion::clear::CurrentLine)
}

/// `termion::cursor::Hide`, formatted: the escape character and `[?25l`.
#[verifier::external_body]
fn hide_cursor() -> (sequence: String)
    ensures
        sequence@ == hide_sequence(),
{
    format!("{}", termion::cursor::Hide)
}

/// `termion::cursor::Show`, formatted: the escape character and `[?25h`.
#[verifier::external_body]
fn show_cursor() -> (sequence: String)
    ensures
        sequence@ == show_sequence(),
{
    format!("{}", termion::cursor::Show)
}

/// `termion::cursor::Goto(column, row)`, formatted: the escape character,
/// `[`, the row in decimal, `;`, the column in decimal, `H`. Both
/// coordinates count from one; `termion` rejects the origin `(0, 0)` in
/// debug builds.
#[verifier::external_body]
fn goto(column: u16, row: u16) -> (sequence: String)
    requires
        column >= 1,
        row >= 1,
    ensures
        sequence@ == goto_sequence(column as nat, row as nat),
{
    format!("{}", termion::cursor::Goto(column, row))
}

/// What the viewer knows of its terminal: the size it had when the viewer
/// started.
pub struct Terminal {
    size: Size,
}

impl View for Terminal {
    type V = Size;

    closed spec fn view(&self) -> Size {
        self.size
    }
}

impl Terminal {
    /// A terminal of `width` columns and `height` rows.
    pub fn new(width: u16, height: u16) -> (terminal: Terminal)
        ensures
            terminal@ == (Size { width, height }),
    {
        Terminal { size: Size { width, height } }
    }

    /// The size the terminal was created with.
    pub fn size(&self) -> (size: &Size)
        ensures
            *size == self@,
    {
        &self.size
    }

    /// The text that clears the whole screen.
    pub fn clear_screen() -> (sequence: String)
        ensures
            sequence@ == clear_screen_sequence(),
    {
        clear_all()
    }

    /// The text that clears the line the cursor is on.
    pub fn clear_current_line() -> (sequence: String)
        ensures
            sequence@ == clear_line_sequence(),
    {
        clear_line()
    }

    /// The text that moves the cursor to the zero-based `position`. The
    /// terminal counts from one, and no coordinate goes past `u16::MAX`.
    pub fn cursor_position(position: &Position) -> (sequence: String)
        ensures
            sequence@ == cursor_sequence(position.x as nat, position.y as nat),
    {
        let limit: usize = 0xffff;
        let x = position.x.saturating_add(1);
        let y = position.y.saturating_add(1);
        let column: u16 = if x <= limit { x as u16 } else { u16::MAX };
        let row: u16 = if y <= limit { y as u16 } else { u16::MAX };
        goto(column, row)
    }

    /// The text that hides the cursor.
    pub fn cursor_hide() -> (sequence: String)
        ensures
            sequence@ == hide_sequence(),
    {
        hide_cursor()
    }

    /// The text that shows the cursor.
    pub fn cursor_show() -> (sequence: String)
        ensures
            sequence@ == show_sequence(),
    {
        show_cursor()
    }
}

} // verus!

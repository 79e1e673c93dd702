//! The viewer: it takes keys, moves its cursor, scrolls its viewport and
//! draws frames, each as its state says.

use crate::document::{lines, Document};
use crate::row::{window, Row};
use crate::state::{placeholder, EditorState, Point};
use crate::terminal::{Key, Terminal};
use vstd::prelude::*;

verus! {

/// A place in the document: `y` counts rows and `x` characters within a
/// row, both from zero.
#[derive(Clone, Copy, Debug, PartialEq, Eq)]
pub struct Position {
    pub x: usize,
    pub y: usize,
}

impl View for Position {
    type V = Point;

    open spec fn view(&self) -> Point {
        Point { x: self.x as nat, y: self.y as nat }
    }
}

impl Default for Position {
    fn default() -> (position: Position)
        ensures
            position == (Position { x: 0, y: 0 }),
    {
        Position { x: 0, y: 0 }
    }
}

/// A viewer: a document, the terminal it is shown on, the cursor and the
/// viewport. The cursor never leaves the document.
pub struct Editor {
    should_quit: bool,
    terminal: Terminal,
    cursor_position: Position,
    document: Document,
    offset: Position,
    version: String,
}

impl View for Editor {
    type V = EditorState;

    closed spec fn view(&self) -> EditorState {
        EditorState {
            quit: self.should_quit,
            width: self.terminal@.width as nat,
            height: self.terminal@.height as nat,
            cursor: self.cursor_position@,
            offset: self.offset@,
            document: self.document@,
            version: self.version@,
        }
    }
}

impl Editor {
    #[verifier::type_invariant]
    spec fn inv(self) -> bool {
        self@.cursor_in_document()
    }

    /// A viewer of `document` on `terminal` in its first state. `version` is
    /// the tag that the welcome banner shows.
    pub fn new(document: Document, terminal: Terminal, version: &str) -> (editor: Editor)
        ensures
            editor@ == EditorState::initial(
                document@,
                terminal@.width as nat,
                terminal@.height as nat,
                version@,
            ),
            editor@.cursor_in_document(),
    {
        Editor {
            should_quit: false,
            terminal,
            cursor_position: Position { x: 0, y: 0 },
            document,
            offset: Position { x: 0, y: 0 },
            version: String::from_str(version),
        }
    }

    /// The viewer as a program starts it, from what the start found.
    /// `source` is what reading the named file gave, or nothing where no
    /// file was named: the viewer then shows the empty document. `size` is
    /// what asking the terminal for its columns and rows gave. A file that
    /// could not be read is an error and never an empty document; its error
    /// comes before that of the terminal.
    pub fn default<E>(
        source: Option<Result<String, E>>,
        size: Result<(u16, u16), E>,
        version: &str,
    ) -> (outcome: Result<Editor, E>)
        ensures
            (match (source, size) {
                (Some(Err(error)), _) => outcome matches Err(e) && e == error,
                (_, Err(error)) => outcome matches Err(e) && e == error,
                (Some(Ok(text)), Ok((width, height))) => outcome matches Ok(editor) && editor@
                    == EditorState::initial(lines(text@), width as nat, height as nat, version@),
                (None, Ok((width, height))) => outcome matches Ok(editor) && editor@
                    == EditorState::initial(Seq::empty(), width as nat, height as nat, version@),
            }),
    {
        let document = match source {
            Some(read) => match Document::open(read) {
                Ok(document) => document,
                Err(error) => {
                    return Err(error);
                },
            },
            None => Document::empty(),
        };
        match size {
            Ok((width, height)) => Ok(Editor::new(document, Terminal::new(width, height), version)),
            Err(error) => Err(error),
        }
    }

    /// Whether the session is over.
    pub fn should_quit(&self) -> (quit: bool)
        ensures
            quit == self@.quit,
    {
        self.should_quit
    }

    /// The cursor. It lies in the document.
    pub fn cursor_position(&self) -> (position: Position)
        ensures
            position@ == self@.cursor,
            self@.cursor_in_document(),
    {
        proof {
            use_type_invariant(self);
        }
        self.cursor_position
    }

    /// The cell of the document in the top left corner of the screen.
    pub fn offset(&self) -> (offset: Position)
        ensures
            offset@ == self@.offset,
    {
        self.offset
    }

    /// The document.
    pub fn document(&self) -> (document: &Document)
        ensures
            document@ == self@.document,
    {
        &self.document
    }

    /// The terminal.
    pub fn terminal(&self) -> (terminal: &Terminal)
        ensures
            terminal@.width == self@.width,
            terminal@.height == self@.height,
    {
        &self.terminal
    }

    /// The length of row `y`; zero where the document has no such row.
    fn row_len(&self, y: usize) -> (n: usize)
        ensures
            n == self@.row_len(y as nat),
    {
        match self.document.row(y) {
            Some(row) => row.len(),
            None => 0,
        }
    }

    /// Takes what reading a key gave. A key is acted on: the quit key ends
    /// the session, a navigation key moves the cursor, any other key does
    /// nothing; then the viewport follows the cursor. A failed read changes
    /// nothing and its error goes back to the caller.
    pub fn process_keypress<E>(&mut self, pressed_key: Result<Key, E>) -> (outcome: Result<(), E>)
        ensures
            (match pressed_key {
                Ok(key) => outcome is Ok && final(self)@ == old(self)@.after_key(key),
                Err(error) => outcome matches Err(e) && e == error && final(self)@ == old(self)@,
            }),
            final(self)@.cursor_in_document(),
            pressed_key is Ok ==> final(self)@.cursor_in_view(),
    {
        proof {
            use_type_invariant(&*self);
        }
        match pressed_key {
            Ok(key) => {
                self.press(key);
                Ok(())
            },
            Err(error) => Err(error),
        }
    }

    /// Acts on one key.
    fn press(&mut self, key: Key)
        ensures
            final(self)@ == old(self)@.after_key(key),
            final(self)@.cursor_in_document(),
            final(self)@.cursor_in_view(),
    {
        proof {
            use_type_invariant(&*self);
        }
        match key {
            Key::Ctrl('c') => {
                self.should_quit = true;
            },
            Key::Up
            | Key::Down
            | Key::Left
            | Key::Right
            | Key::PageUp
            | Key::PageDown
            | Key::End
            | Key::Home => {
                self.move_cursor(key);
            },
            _ => {},
        }
        self.scroll();
    }

    /// Brings the viewport back over the cursor. Where the cursor has left
    /// it upwards or to the left, the viewport starts at the cursor; where
    /// it has left it downwards or to the right, the viewport moves just
    /// far enough to show the cursor on its last row or column.
    pub fn scroll(&mut self)
        ensures
            final(self)@ == (EditorState { offset: old(self)@.scrolled(), ..old(self)@ }),
            final(self)@.cursor_in_view(),
    {
        proof {
            use_type_invariant(&*self);
        }
        let x: usize = self.cursor_position.x;
        let y: usize = self.cursor_position.y;
        let width: usize = self.terminal.size().width as usize;
        let height: usize = self.terminal.size().height as usize;
        let mut offset: Position = self.offset;
        if y < offset.y {
            offset.y = y;
        } else if y - offset.y >= height {
            offset.y = (y - height).saturating_add(1);
        }
        if x < offset.x {
            offset.x = x;
        } else if x - offset.x >= width {
            offset.x = (x - width).saturating_add(1);
        }
        self.offset = offset;
    }

    /// Moves the cursor as `key` says; a key that is no navigation key
    /// leaves it where it is. Up and Down step by one row, Page Up and Page
    /// Down by the height of the terminal, Left and Right by one character;
    /// Home and End go to the ends of the row. The cursor stops at the first
    /// row, just below the last row, and at the ends of its row.
    pub fn move_cursor(&mut self, key: Key)
        ensures
            final(self)@ == (EditorState { cursor: old(self)@.moved(key), ..old(self)@ }),
            final(self)@.cursor_in_document(),
    {
        proof {
            use_type_invariant(&*self);
        }
        let mut x: usize = self.cursor_position.x;
        let mut y: usize = self.cursor_position.y;
        let page: usize = self.terminal.size().height as usize;
        let height: usize = self.document.len();
        let width: usize = self.row_len(y);
        match key {
            Key::Up => {
                y = y.saturating_sub(1);
            },
            Key::Down => {
                if y < height {
                    y = y + 1;
                }
            },
            Key::Left => {
                x = x.saturating_sub(1);
            },
            Key::Right => {
                if x < width {
                    x = x + 1;
                }
            },
            Key::PageUp => {
                y = y.saturating_sub(page);
            },
            Key::PageDown => {
                y = if height - y > page {
                    y + page
                } else {
                    height
                };
            },
            Key::Home => {
                x = 0;
            },
            Key::End => {
                x = width;
            },
            _ => {},
        }
        let width: usize = self.row_len(y);
        if x > width {
            x = width;
        }
        self.cursor_position = Position { x, y };
    }
}

impl Editor {
    /// The welcome banner for this terminal.
    pub fn draw_welcome_message(&self) -> (banner: String)
        ensures
            banner@ == self@.welcome(),
    {
        let mut message = String::from_str("Hecto editor -- version ");
        message.append(self.version.as_str());
        let width: usize = self.terminal.size().width as usize;
        let len: usize = message.as_str().unicode_len();
        let padding: usize = width.saturating_sub(len) / 2;
        let spaces: usize = padding.saturating_sub(1);
        let mut banner = String::from_str("~");
        let mut i: usize = 0;
        while i < spaces
            invariant
                i <= spaces,
                banner@ == placeholder() + Seq::new(i as nat, |k: int| ' '),
            decreases spaces - i,
        {
            banner.push(' ');
            i = i + 1;
        }
        banner.append(message.as_str());
        let total: usize = banner.as_str().unicode_len();
        if total > width {
            String::from_str(banner.as_str().substring_char(0, width))
        } else {
            assert(banner@.subrange(0, total as int) == banner@);
            banner
        }
    }

    /// The part of `row` that the viewport covers.
    pub fn draw_row(&self, row: &Row) -> (text: String)
        ensures
            text@ == window(row@, self@.offset.x, self@.offset.x + self@.width),
    {
        let start: usize = self.offset.x;
        let width: usize = self.terminal.size().width as usize;
        let end: usize = match start.checked_add(width) {
            Some(end) => end,
            None => row.len(),
        };
        row.render(start, end)
    }

    /// What each drawn screen row shows, from the top; the last row of the
    /// terminal is not drawn.
    pub fn draw_rows(&self) -> (lines: Vec<String>)
        ensures
            lines@.len() == self@.drawn_rows(),
            forall|r: int| 0 <= r < lines@.len() ==> (#[trigger] lines@[r])@ == self@.line(r as nat),
    {
        let height: u16 = self.terminal.size().height;
        let count: u16 = height.saturating_sub(1);
        let rows: usize = self.document.len();
        let mut lines: Vec<String> = Vec::new();
        let mut terminal_row: u16 = 0;
        while terminal_row < count
            invariant
                terminal_row <= count,
                count == self@.drawn_rows(),
                height == self@.height,
                rows == self@.document.len(),
                lines@.len() == terminal_row,
                forall|r: int|
                    0 <= r < lines@.len() ==> (#[trigger] lines@[r])@ == self@.line(r as nat),
            decreases count - terminal_row,
        {
            let row = match self.offset.y.checked_add(terminal_row as usize) {
                Some(y) => self.document.row(y),
                None => None,
            };
            let line = if let Some(row) = row {
                self.draw_row(row)
            } else if rows == 0 && terminal_row == height / 3 {
                self.draw_welcome_message()
            } else {
                String::from_str("~")
            };
            lines.push(line);
            terminal_row = terminal_row + 1;
        }
        lines
    }

    /// The text of the next frame, for the caller to write and flush.
    pub fn refresh_screen(&self) -> (frame: String)
        ensures
            frame@ == self@.frame(),
    {
        let mut frame = Terminal::cursor_hide();
        frame.append(Terminal::cursor_position(&Position { x: 0, y: 0 }).as_str());
        if self.should_quit {
            frame.append(Terminal::clear_screen().as_str());
            frame.append("Goodbye.\r");
        } else {
            let lines = self.draw_rows();
            let ghost head = frame@;
            let mut i: usize = 0;
            while i < lines.len()
                invariant
                    i <= lines@.len(),
                    lines@.len() == self@.drawn_rows(),
                    forall|r: int|
                        0 <= r < lines@.len() ==> (#[trigger] lines@[r])@ == self@.line(r as nat),
                    frame@ == head + self@.drawn(i as nat),
                decreases lines@.len() - i,
            {
                frame.append(Terminal::clear_current_line().as_str());
                frame.append(lines[i].as_str());
                frame.append("\r\n");
                i = i + 1;
            }
            frame.append(
                Terminal::cursor_position(
                    &Position {
                        x: self.cursor_position.x.saturating_sub(self.offset.x),
                        y: self.cursor_position.y.saturating_sub(self.offset.y),
                    },
                ).as_str(),
            );
        }
        frame.append(Terminal::cursor_show().as_str());
        frame
    }
}

impl Editor {
    /// Plays a session on `keys`: draws a frame, stops if the session is
    /// over or no key is left, takes the next key, and starts again. The
    /// frames come back in the order in which they were drawn.
    pub fn run(&mut self, keys: &Vec<Key>) -> (frames: Vec<String>)
        ensures
            final(self)@ == old(self)@.after_keys(keys@),
            final(self)@.cursor_in_document(),
            frames@.len() == old(self)@.session(keys@).len(),
            forall|i: int|
                0 <= i < frames@.len() ==> (#[trigger] frames@[i])@ == old(self)@.session(keys@)[i],
    {
        proof {
            use_type_invariant(&*self);
        }
        let mut frames: Vec<String> = Vec::new();
        let ghost mut shown: Seq<Seq<char>> = Seq::empty();
        let mut next: usize = 0;
        assert(keys@.skip(0) == keys@);
        loop
            invariant_except_break
                old(self)@.session(keys@) == shown + self@.session(keys@.skip(next as int)),
                old(self)@.after_keys(keys@) == self@.after_keys(keys@.skip(next as int)),
            invariant
                next <= keys@.len(),
                self@.cursor_in_document(),
                shown.len() == frames@.len(),
                forall|i: int| 0 <= i < frames@.len() ==> (#[trigger] frames@[i])@ == shown[i],
            ensures
                old(self)@.session(keys@) == shown,
                old(self)@.after_keys(keys@) == self@,
            decreases keys@.len() - next,
        {
            let ghost rest = keys@.skip(next as int);
            let ghost before = self@;
            frames.push(self.refresh_screen());
            proof {
                shown = shown.push(before.frame());
            }
            if self.should_quit || next >= keys.len() {
                assert(before.session(rest) == seq![before.frame()]);
                break ;
            }
            self.press(keys[next]);
            next = next + 1;
            proof {
                assert(rest[0] == keys@[next - 1]);
                assert(rest.drop_first() == keys@.skip(next as int));
                assert(shown + self@.session(keys@.skip(next as int)) == shown.drop_last()
                    + before.session(rest));
            }
        }
        frames
    }
}

} // verus!

//! The model of a small terminal text viewer: a row-based text buffer, the
//! mapping from cursor to viewport with its scrolling rule, and the control
//! sequences that put a frame on an ANSI terminal.
//!
//! Nothing here touches a device. A caller owns the terminal, writes the
//! frames this crate produces and hands back the keys it reads.

pub mod document;
pub mod editor;
pub mod row;
pub mod state;
pub mod terminal;

pub use document::Document;
pub use editor::{Editor, Position};
pub use row::Row;
pub use state::{EditorState, Point};
pub use terminal::{Key, Size, Terminal};

//! Core of a minimal full-screen terminal text viewer: rows of text, a
//! document made of rows, the logical cursor with its movement rules, and
//! the pure computation behind each screen refresh. Device I/O (raw mode,
//! escape sequences, key reads) lives outside this crate.

mod document;
mod editor;
mod row;
mod terminal;

pub use document::Document;
pub use editor::Editor;
pub use editor::Key;
pub use editor::Position;
pub use editor::WELCOME_MESSAGE;
pub use editor::welcome_banner;
pub use row::Row;
pub use terminal::Size;
pub use terminal::terminal_coords;

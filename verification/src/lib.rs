//! Core of a small modal terminal text editor.
//!
//! The library owns the editing-session state (cursor position, input mode,
//! quit flag, open document) and the logic that interprets keypresses and
//! computes what each screen row should show. All terminal and file I/O is
//! left to the surrounding program: the session functions take the current
//! terminal size and the next decoded key as plain values and hand back the
//! new state together with a description of the frame to draw.

mod document;
mod editor;

pub use document::Document;
pub use document::Row;
pub use editor::CursorStyle;
pub use editor::Editor;
pub use editor::Frame;
pub use editor::Key;
pub use editor::Mode;
pub use editor::Position;
pub use editor::ScreenRow;

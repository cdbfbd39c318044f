//! Editing engine of a small modal text editor: a line buffer, a cursor with a
//! scrolling viewport, and the two-mode state machine that turns key presses
//! into edits.

pub mod editor;
pub mod input;
pub mod laws;
pub mod model;
pub mod text;

pub use editor::Editor;
pub use input::{handle_insert_mode, handle_normal_mode, Action, Event, Key, Mode};
pub use model::EditorState;
pub use text::{indent_of, Buffer};

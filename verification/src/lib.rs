//! In-memory document and presentation model of a terminal text editor.
//!
//! The crate owns the text buffer, the cursor, the scrolling viewport and a
//! per-line cache of syntax tokens, and offers the small vocabulary of
//! commands that an event loop drives. Every function carries a contract that
//! Verus proves. `model` says what an editor is as a mathematical value and
//! what each operation does to it; `editor` holds the state that computes it.
//! The few calls into other crates stand in `buffer`, `width`, `strings` and
//! `file_type`, each with what is believed of it.

pub mod buffer;
pub mod commands;
pub mod editor;
pub mod file_type;
pub mod invariants;
pub mod laws;
pub mod lexer;
pub mod lines;
pub mod model;
pub mod render;
pub mod strings;
pub mod theme;
pub mod width;

pub use commands::{
    command_from_event, command_from_key, to_input_key, ApplyResult, EditorCommand, EditorMode,
    Effect, InputKey, KeyName, KeyPress,
};
pub use editor::{EditorState, ScreenRow, ScreenSize, DEFAULT_HELP_MESSAGE};
pub use file_type::FileType;
pub use model::{QUIT_CONFIRM_COUNT, TAB_WIDTH};
pub use render::fit_to_width;
pub use theme::{Theme, ThemeColor};

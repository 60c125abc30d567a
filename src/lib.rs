//! The control core of a modal terminal text editor.
//!
//! Key presses are classified into actions by a mode-scoped binding table
//! (`input`), actions are applied to the editor's mode and cursor (`editor`),
//! and the state is projected onto the terminal as a list of terminal
//! commands (`render`, `terminal`). Performing those commands, and reading
//! events from the real terminal, is left to the caller.
use vstd::prelude::*;

pub mod mode;
pub mod input;
pub mod terminal;
pub mod editor;
pub mod render;
pub mod laws;

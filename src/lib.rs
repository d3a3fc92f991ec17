//! An interactive line-editing and input-session engine: an edit buffer,
//! a modal keybinding table, completion, a session-aware history store,
//! the read-cycle state machine and the command dispatcher that consumes it.
pub mod buffer;
pub mod keymap;
pub mod text;
pub mod history;
pub mod completion;
pub mod editor;
pub mod session;
pub mod cycle;
pub mod commands;
pub mod hints;

//! Client-side runtime for a terminal resource-management application.
//!
//! The library holds the verified core: cursor-addressed text-editing
//! widgets, bounded selection cursors for lists, the screen-navigation
//! state machine with its per-resource sub-states, the envelope routing
//! table, and the bounded outbound command queue.  Terminal rendering,
//! the realtime connection, and local storage live outside the library
//! and exchange plain values with it.

pub mod bin_screen;
pub mod event;
pub mod expire_input;
pub mod input_widget;
pub mod keys;
pub mod main_screen;
pub mod multiline_input;
pub mod notes_screen;
pub mod projects_screen;
pub mod queue;
pub mod router;
pub mod selection;
pub mod text;
pub mod todos_screen;

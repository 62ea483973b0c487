//! Layout and reconciliation rules for a window that hosts four web panes in a
//! two-by-two grid beside a resizable sidebar, with a fullscreen mode in which
//! the control pane covers the whole window.
//!
//! The library decides; it performs nothing. Every command takes the shared
//! layout state and what the caller observed of the host window, and returns
//! the list of pane operations that the caller then carries out.

pub mod geometry;
pub mod host;
pub mod json;
pub mod json_handler;
pub mod laws;
pub mod layout_state;
pub mod pane;
pub mod plans;
pub mod window_manager;
pub mod workspace;

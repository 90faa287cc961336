//! The clipboards that a desktop may have.

pub mod data_control;
pub mod wl_clipboard;

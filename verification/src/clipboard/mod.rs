//! The clipboard, shared between the client and the desktop.

pub mod mime;
pub mod provider;
pub mod providers;

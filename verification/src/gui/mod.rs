//! The configuration window: its state, its messages and what they change.

pub mod app;
pub mod capabilities;
pub mod certificate_updates;
pub mod changes;
pub mod dialogs;
pub mod edit_laws;
pub mod edits;
pub mod file_updates;
pub mod first_run_updates;
pub mod json;
pub mod message;
pub mod presets;
pub mod security_laws;
pub mod security_updates;
pub mod server_laws;
pub mod server_updates;
pub mod state;
pub mod view_laws;
pub mod view_updates;
pub mod views;
pub mod window_laws;

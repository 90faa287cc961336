//! Verified core of a Wayland RDP server: session supervision, strategy
//! selection, input translation, graphics pipeline decisions, clipboard
//! bookkeeping and the configuration front end.
//!
//! Everything that decides lives here with a contract; everything that talks
//! to a compositor, a socket, a file or a clock lives around it and hands the
//! library plain values.

pub mod clipboard;
pub mod clock;
pub mod config;
pub mod egfx;
pub mod failure;
pub mod gui;
pub mod health;
pub mod ids;
pub mod paths;
pub mod security;
pub mod server;
pub mod sesman;
pub mod session;
pub mod text;
pub mod text_map;

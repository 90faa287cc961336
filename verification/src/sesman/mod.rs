//! Session manager.
//!
//! Owns the lifecycle of a headless compositor stack: a headless compositor, a nested
//! compositor in it, and the RDP server in that one. It keeps a registry entry of the
//! running session, reuses a healthy one, restarts a broken one and tears it down.

pub mod cli;
pub mod config;
pub mod ensure;
pub mod lock;
pub mod manager;
pub mod session;
pub mod stop;

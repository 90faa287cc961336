//! The graphics pipeline extension: what was negotiated with the client.

pub mod handler;

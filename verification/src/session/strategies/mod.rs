//! The ways to make a session.

pub mod portal_generic;
pub mod portal_token;
pub mod selector;

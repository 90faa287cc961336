//! Sessions on the desktop: how they are made and what they offer.

pub mod strategies;
pub mod strategy;

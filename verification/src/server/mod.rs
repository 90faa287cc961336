//! The RDP server: input, display and the graphics channel.

pub mod display_handler;
pub mod egfx_sender;
pub mod gfx_factory;
pub mod input_handler;
pub mod nal;
pub mod padding;
pub mod pipeline;

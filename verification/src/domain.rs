//! Values and rules that do not depend on any operating system service.

pub mod color;
pub mod image_processor;
pub mod port;
pub mod text;

//! The decisions of a small real-time renderer, apart from the graphics context that
//! carries them out: building a shader program from two stages, laying out and drawing
//! indexed geometry, and planning each frame from its events and framebuffer size.

pub mod frame;
pub mod geometry;
pub mod shader;
pub mod text;

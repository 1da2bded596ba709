//! A small camera-to-shader demo library: configuration loading and
//! serialization for a capture device, a FIFO hand-off queue of captured
//! frames, pixel-buffer preparation for texture upload, and the decision
//! logic of the startup and render loops.

pub mod config;
pub mod frame;
pub mod gfx;
pub mod json;
pub mod loader;
pub mod machine;
pub mod queue;
pub mod startup;
pub mod text;

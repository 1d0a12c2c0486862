//! Verified decision logic of a small series of wgpu/winit lessons: the
//! window-and-surface state machine of each lesson, the surface
//! configuration that is chosen from an adapter's capabilities, and the
//! vertex data and vertex-buffer layout of the coloured triangle.
//!
//! Everything that talks to the windowing system or the GPU lives in the
//! application crate, which performs the commands that this library decides.

pub mod clear_window;
pub mod frame;
pub mod learn_module;

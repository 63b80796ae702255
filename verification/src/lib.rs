//! Decision core of a minimal windowed GPU application shell.
//!
//! The shell opens a fullscreen window, sets up a GPU device and one render
//! pipeline, and draws one triangle every frame until the user quits. What
//! it decides on the way stands here, free of windows and devices: which
//! step of the bootstrap is due and with what settings, which surface
//! format is rendered into, what a frame consists of, how the frame loop
//! answers an event, and how the process ends.

pub mod bootstrap;
pub mod context;
pub mod exit;
pub mod format;
pub mod gpu_types;
pub mod pipeline;
pub mod render;
pub mod surface;
pub mod vertex;

pub use crate::context::XApp;

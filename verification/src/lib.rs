//! Verified core of a procedural film-grain renderer.
//!
//! A grain pass shades every pixel of a frame from noise that depends on
//! the position of the pixel alone. This library holds what such a pass
//! rests on and what can be said of it in integers:
//!
//! - [`config`]: the parameter set, its defaults and when it is usable;
//! - [`ieee`]: the reading of a real-valued parameter from its bit pattern;
//! - [`engine`]: the seeds from which the noise generators of a worker grow;
//! - [`frame`]: where a pixel lies in a buffer;
//! - [`pipeline`]: the pass itself, over a frame or over a span of it, with
//!   the shader as a parameter, and the laws by which the result does not
//!   depend on how the work is divided;
//! - [`error`]: why a pass was refused.
//!
//! The arithmetic of the grain is floating point and is the caller's: it
//! enters the pipeline as the shader.

pub mod config;
pub mod engine;
pub mod error;
pub mod frame;
pub mod ieee;
pub mod pipeline;

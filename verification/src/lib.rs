//! A verified model of a minimal GPU triangle-drawing pipeline.
//!
//! The library covers the decision core of the pipeline: turning driver
//! reports of shader compilation and program linking into outcomes, modelling
//! the geometry upload and its vertex layout, the exact pixel-to-clip
//! transform the vertex stage is contracted to apply, the command sequence a
//! frame consists of, and the linear state machine that rules out a partial
//! draw after any failure. The calls into a live rendering context are I/O
//! and live outside the library; they hand it plain values (creation and
//! status flags, driver logs, attribute indices) and execute the command
//! plans it returns.

pub mod error;
pub mod geometry;
pub mod program;
pub mod render;
pub mod shader;
pub mod state;
pub mod transform;

//! Deterministic keyframe-curve evaluation.
//!
//! Given a time-ordered sequence of control points (time, multi-channel
//! value, interpolation kind) and a query timestamp, the evaluator produces
//! the interpolated value at that instant, looping the timeline when the
//! query extends past its range.  All arithmetic is carried out in a
//! saturating signed fixed-point representation with 24 fractional bits and
//! a single rounding rule (truncation toward zero), so every evaluation is
//! exactly reproducible.
//!
//! Alongside the evaluator the crate holds the engine's plain configuration
//! records, the streamed-uniform bookkeeping types and the map editor's
//! group-move decision.

pub mod anim;
pub mod config;
pub mod fx;
pub mod graphics_stream;
pub mod group_move;
pub mod laws;
pub mod render_tools;
pub mod roots;

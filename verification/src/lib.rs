//! A transform-matrix management engine for a fixed-function rasterizer.
//!
//! The engine keeps one fixed-depth matrix stack per transform space
//! (projection, view, model, texture), offers the standard 3-D transform
//! algebra on the top-of-stack entry of the currently selected space, and
//! defers hardware synchronization: every mutation marks its space dirty, and
//! an explicit update pass emits one upload command per dirty space.
//!
//! Matrices hold IEEE-754 single-precision values, carried everywhere as
//! their 32-bit patterns; see [`scalar`] for the arithmetic layer.

pub mod fb;
pub mod gum;
pub mod laws;
pub mod mat;
pub mod scalar;
pub mod sys;

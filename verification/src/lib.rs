//! Verified core of a small sphere ray-caster.
//!
//! The library owns the animation state, the frame-counter arithmetic, the
//! clamping of shading values, and the compositing of per-pixel shading
//! decisions into an RGBA byte buffer. The floating-point ray geometry and
//! the windowing harness live outside the library and feed it plain values.

pub mod color;
pub mod render;
pub mod report;
pub mod world;

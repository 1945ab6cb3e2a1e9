//! The decisions of a small path tracer, verified.
//!
//! A renderer casts rays from a camera through a scene of primitives and
//! follows each ray from bounce to bounce. Its arithmetic is floating point and
//! stays with the caller; this crate holds what is decided along the way:
//! which pixel requests a camera accepts and where in the pixel a sample falls,
//! which root of an intersection counts as the hit, which primitive is nearest,
//! when a path ends, and how the per-pixel jobs of a render are handed out and
//! collected.

pub mod scalar;
pub mod scene;
pub mod shading;
pub mod sampling;
pub mod camera;
pub mod threadpool;
pub mod render;

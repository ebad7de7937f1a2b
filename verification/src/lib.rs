//! Core logic of a small real-time renderer that draws a lit, spinning cube.
//!
//! The render loop's control decisions (when to rebuild size-dependent
//! targets, when to skip a frame, how the previous frame's completion token
//! is recycled) live in [`frame`]. The per-frame uniform inputs — camera,
//! projection parameters and rotation angles — live in [`transform`], stated
//! over exact fixed-point values; the GPU-side shading model is stated in
//! [`light`], over the normalized light direction the caller supplies. The
//! cube's vertex data is built in [`vertex`].

pub mod frame;
pub mod light;
pub mod mat;
pub mod transform;
pub mod vertex;

pub use frame::Extent;

//! The decision core of a path tracer.
//!
//! Every number that the renderer works with is a double; here it is held by
//! its bit pattern, so that each comparison the renderer makes (which root of
//! a sphere is taken, which primitive is nearest, whether a ray is absorbed)
//! is an integer fact that can be proved.

pub mod aspect;
pub mod camera;
pub mod hittables;
pub mod material;
pub mod render;
pub mod scalar;
pub mod util;
pub mod world;

//! The decision core of a ray caster.
//!
//! Every real number is held as an IEEE-754 binary32 bit pattern. The caller
//! does the arithmetic and brings it as functions; this crate compares the
//! results, decides whether a ray hits a shape and where, resolves the
//! closest hit, splits the image into tiles, fills the pixel buffer and
//! turns it into an image.

pub mod scalar;
pub mod color;
pub mod geometry;
pub mod intersection;
pub mod probe;
pub mod scene;
pub mod tile;
pub mod pixel;
pub mod render;
pub mod canvas;

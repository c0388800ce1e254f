//! Horizontal flipping of square sprite images, either as one picture or as a
//! sheet of four directional quadrants.
pub mod mapping;
pub mod grid;
pub mod transform;

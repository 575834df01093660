//! Core of a software 3D rendering pipeline over fixed-point scalars:
//! fixed-size linear algebra with cofactor determinants and adjugate
//! inversion, homogeneous/Euclidean point conversions, back-face culling,
//! a z-buffered screen buffer, and mesh load post-processing. Every scalar
//! is a Q47.16 fixed-point number in an `i64`, so each operation's result
//! is stated exactly over mathematical integers.

pub mod fixed;
pub mod geometry;
pub mod loader;
pub mod matrix;
pub mod mesh;
pub mod projection;
pub mod raster;
pub mod scene;
pub mod screen;
pub mod visibility;

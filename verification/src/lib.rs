//! A small path-tracing engine over fixed-point arithmetic.
//!
//! Geometry, colors and camera parameters are carried as signed 64-bit
//! fixed-point numbers with 16 fractional bits, so every arithmetic step has
//! an exact integer meaning that the contracts can state and the verifier can
//! check. Randomness comes from an explicitly passed generator, kept behind a
//! thin trusted boundary.

pub mod camera;
pub mod fx;
pub mod hittable;
pub mod material;
pub mod ray;
pub mod render;
pub mod rtweekend;
pub mod scenes;
pub mod sphere;
pub mod vec3;
pub mod vec3_img;

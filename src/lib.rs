//! A backward ray tracer over saturating fixed-point arithmetic.
pub mod camera;
pub mod fixed;
pub mod geometry;
pub mod light;
pub mod material;
pub mod ray;
pub mod raytracer;
pub mod render;
pub mod scene;
pub mod texture;
pub mod vector;

//! A small recursive ray tracer over fixed-point numbers.
//!
//! A [`world::World`] holds planes, spheres, triangles and lights. Tracing a
//! ray through it finds the nearest primitive that the ray hits, lights the
//! point with every light in play (a glowing sphere is one), dims a light
//! for every sphere or triangle that one shadow ray toward it meets, follows
//! the mirrored ray where the surface reflects, and falls back to a sky
//! gradient where nothing is hit.
//!
//! All numbers are [`scalar::Scalar`]s, counts of billionths with total,
//! clipping arithmetic, so that every function here is defined on every
//! input and its result is stated exactly. Module [`laws`] proves what holds
//! of every scene.
#![allow(non_snake_case)]

pub mod angle;
pub mod laws;
pub mod light;
pub mod material;
pub mod primitives;
pub mod ray;
pub mod sampling;
pub mod scalar;
pub mod util;
pub mod vec3;
pub mod world;

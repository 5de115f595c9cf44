//! A recursive ray tracer for scenes of axis-aligned boxes over a bounded
//! ground plane, computed in saturating fixed-point arithmetic so that every
//! intersection test and every shading step has an exact specification.
//!
//! [`render`] fills a [`framebuffer::Framebuffer`] with one [`cast_ray`] per
//! pixel. `cast_ray` finds the nearest hit among the shapes of a scene,
//! shades it under a [`light::Light`], and follows the reflected and the
//! refracted ray for a few levels.

pub mod scalar;
pub mod vector;
pub mod color;
pub mod texture;
pub mod material;
pub mod ray_intersect;
pub mod cube;
pub mod square;
pub mod shape;
pub mod light;
pub mod camera;
pub mod framebuffer;
pub mod engine;
pub mod render;
pub mod diorama;

pub use crate::engine::cast_ray;
pub use crate::render::render;

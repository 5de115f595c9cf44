//! The shapes a scene is made of.

use vstd::prelude::*;
use crate::cube::{lemma_cube_hit_normal_is_axis, Cube};
use crate::ray_intersect::{Intersect, RayIntersect};
use crate::square::Square;
use crate::scalar::Scalar;
use crate::vector::{lemma_axis_is_unit, Vec3};

verus! {

/// Any shape of a scene.
pub enum Shape {
    Cube(Cube),
    Square(Square),
}

impl RayIntersect for Shape {
    /// What the shape inside gives.
    open spec fn spec_ray_intersect(&self, ray_origin: Vec3, ray_direction: Vec3) -> Intersect {
        match self {
            Shape::Cube(cube) => cube.spec_ray_intersect(ray_origin, ray_direction),
            Shape::Square(square) => square.spec_ray_intersect(ray_origin, ray_direction),
        }
    }

    fn ray_intersect(&self, ray_origin: &Vec3, ray_direction: &Vec3) -> (r: Intersect) {
        match self {
            Shape::Cube(cube) => cube.ray_intersect(ray_origin, ray_direction),
            Shape::Square(square) => square.ray_intersect(ray_origin, ray_direction),
        }
    }
}

/// Every hit of a shape has a normal of unit length along an axis.
pub proof fn lemma_shape_hit_normal_is_axis(shape: Shape, origin: Vec3, direction: Vec3)
    requires
        shape.spec_ray_intersect(origin, direction).is_intersecting,
    ensures
        shape.spec_ray_intersect(origin, direction).normal.is_axis(),
        shape.spec_ray_intersect(origin, direction).normal.spec_magnitude() == Scalar::spec_one(),
{
    match shape {
        Shape::Cube(cube) => {
            lemma_cube_hit_normal_is_axis(cube, origin, direction);
        },
        Shape::Square(square) => {
            lemma_axis_is_unit(1, true);
        },
    }
}

} // verus!

//! The record of one intersection test, and the shapes that can be tested.

use vstd::prelude::*;
use std::rc::Rc;
use crate::material::Material;
use crate::scalar::Scalar;
use crate::vector::Vec3;

verus! {

/// What testing one ray against one shape gave. `is_intersecting` alone says
/// whether the ray hit: on a miss the other fields mean nothing.
#[derive(Debug, Clone)]
pub struct Intersect {
    pub point: Vec3,
    pub normal: Vec3,
    pub distance: Scalar,
    pub is_intersecting: bool,
    pub material: Rc<Material>,
}

impl Intersect {
    pub open spec fn spec_new(
        point: Vec3,
        normal: Vec3,
        distance: Scalar,
        material: Rc<Material>,
    ) -> Intersect {
        Intersect { point, normal, distance, is_intersecting: true, material }
    }

    pub open spec fn spec_empty() -> Intersect {
        Intersect {
            point: Vec3::spec_zeros(),
            normal: Vec3::spec_zeros(),
            distance: Scalar::spec_zero(),
            is_intersecting: false,
            material: Rc::new(Material::spec_black()),
        }
    }

    /// The material at the hit.
    pub open spec fn surface(&self) -> Material {
        *self.material
    }

    /// A hit at `point`, `distance` along the ray.
    #[verifier::when_used_as_spec(spec_new)]
    pub fn new(point: Vec3, normal: Vec3, distance: Scalar, material: Rc<Material>) -> (r:
        Intersect)
        ensures
            r == Intersect::spec_new(point, normal, distance, material),
    {
        Intersect { point, normal, distance, is_intersecting: true, material }
    }

    /// A miss.
    #[verifier::when_used_as_spec(spec_empty)]
    pub fn empty() -> (r: Intersect)
        ensures
            r == Intersect::spec_empty(),
            !r.is_intersecting,
    {
        Intersect {
            point: Vec3::zeros(),
            normal: Vec3::zeros(),
            distance: Scalar::zero(),
            is_intersecting: false,
            material: Rc::new(Material::black()),
        }
    }
}

/// A shape that a ray can be tested against.
pub trait RayIntersect {
    /// What the test of the ray from `ray_origin` along `ray_direction`
    /// gives for this shape.
    spec fn spec_ray_intersect(&self, ray_origin: Vec3, ray_direction: Vec3) -> Intersect;

    fn ray_intersect(&self, ray_origin: &Vec3, ray_direction: &Vec3) -> (r: Intersect)
        ensures
            r == self.spec_ray_intersect(*ray_origin, *ray_direction),
    ;
}

} // verus!

//! The bounded ground plane: a horizontal square.

use vstd::prelude::*;
use std::rc::Rc;
use crate::material::Material;
use crate::ray_intersect::{Intersect, RayIntersect};
use crate::scalar::{Scalar, LIMIT};
use crate::vector::Vec3;

verus! {

/// A ray whose direction has no more than this much of the plane's normal in
/// it, in raw units, counts as parallel to the plane: one millionth.
pub const PARALLEL_EPSILON: i64 = 1_000;

/// A square of side `size` around `center`, lying flat at the height of
/// `center` and facing up.
pub struct Square {
    pub center: Vec3,
    pub size: Scalar,
    pub material: Rc<Material>,
}

impl Square {
    pub open spec fn spec_half_size(&self) -> Scalar {
        self.size.spec_div(Scalar::spec_from_int(2))
    }

    /// Whether `point` lies over the square, whatever its height.
    pub open spec fn spec_is_point_inside(&self, point: Vec3) -> bool {
        &&& point.x@ >= self.center.x.spec_sub(self.spec_half_size())@
        &&& point.x@ <= self.center.x.spec_add(self.spec_half_size())@
        &&& point.z@ >= self.center.z.spec_sub(self.spec_half_size())@
        &&& point.z@ <= self.center.z.spec_add(self.spec_half_size())@
    }

    /// How much of the plane's normal the direction has in it.
    pub open spec fn denominator(direction: Vec3) -> Scalar {
        Vec3::spec_unit_y().spec_dot(direction)
    }

    /// Whether the ray runs alongside the plane, near enough never to cross.
    pub open spec fn runs_parallel(direction: Vec3) -> bool {
        Square::denominator(direction).spec_abs()@ <= PARALLEL_EPSILON
    }

    /// The parameter at which the ray crosses the plane of the square.
    pub open spec fn crossing(&self, origin: Vec3, direction: Vec3) -> Scalar {
        Vec3::spec_unit_y().spec_dot(origin).spec_add(self.center.y.spec_neg()).spec_neg().spec_div(
            Square::denominator(direction),
        )
    }

    /// The point at which the ray crosses the plane of the square.
    pub open spec fn crossing_point(&self, origin: Vec3, direction: Vec3) -> Vec3 {
        origin.spec_add(direction.spec_scale(self.crossing(origin, direction)))
    }

    /// The ray hits when it is not parallel to the plane, crosses it at or
    /// after its origin, and does so over the square.
    pub open spec fn hits(&self, origin: Vec3, direction: Vec3) -> bool {
        &&& !Square::runs_parallel(direction)
        &&& self.crossing(origin, direction)@ >= 0
        &&& self.spec_is_point_inside(self.crossing_point(origin, direction))
    }

    /// The record of a miss: its distance is the far end of the number range.
    pub open spec fn miss(&self) -> Intersect {
        Intersect {
            point: Vec3::spec_zeros(),
            normal: Vec3::spec_zeros(),
            distance: Scalar { raw: LIMIT },
            is_intersecting: false,
            material: self.material,
        }
    }

    #[verifier::when_used_as_spec(spec_half_size)]
    pub fn half_size(&self) -> (r: Scalar)
        ensures
            r == self.spec_half_size(),
    {
        self.size.div(Scalar::from_int(2))
    }

    pub fn is_point_inside(&self, point: &Vec3) -> (inside: bool)
        ensures
            inside == self.spec_is_point_inside(*point),
    {
        let half_size = self.half_size();
        (point.x.ge(self.center.x.sub(half_size)) && point.x.le(self.center.x.add(half_size)))
            && (point.z.ge(self.center.z.sub(half_size)) && point.z.le(
            self.center.z.add(half_size),
        ))
    }
}

impl RayIntersect for Square {
    /// A hit where the ray crosses the plane, facing up, if the ray hits;
    /// else a miss.
    open spec fn spec_ray_intersect(&self, ray_origin: Vec3, ray_direction: Vec3) -> Intersect {
        if self.hits(ray_origin, ray_direction) {
            Intersect {
                point: self.crossing_point(ray_origin, ray_direction),
                normal: Vec3::spec_unit_y(),
                distance: self.crossing(ray_origin, ray_direction),
                is_intersecting: true,
                material: self.material,
            }
        } else {
            self.miss()
        }
    }

    fn ray_intersect(&self, ray_origin: &Vec3, ray_direction: &Vec3) -> (r: Intersect) {
        let normal = Vec3::unit_y();
        let d = self.center.y.neg();

        let denom = normal.dot(*ray_direction);
        if denom.abs().units() > PARALLEL_EPSILON {
            let t = normal.dot(*ray_origin).add(d).neg().div(denom);
            if t.ge(Scalar::zero()) {
                let hit_point = ray_origin.add(ray_direction.scale(t));
                if self.is_point_inside(&hit_point) {
                    return Intersect {
                        point: hit_point,
                        normal,
                        distance: t,
                        material: Rc::clone(&self.material),
                        is_intersecting: true,
                    };
                }
            }
        }
        Intersect {
            point: Vec3::zeros(),
            normal: Vec3::zeros(),
            distance: Scalar { raw: LIMIT },
            material: Rc::clone(&self.material),
            is_intersecting: false,
        }
    }
}

/// A ray that crosses the plane of the square at or after its origin hits
/// exactly when the crossing lies over the square, and a hit faces up.
pub proof fn lemma_ground_hit_iff_inside(square: Square, origin: Vec3, direction: Vec3)
    requires
        !Square::runs_parallel(direction),
        square.crossing(origin, direction)@ >= 0,
    ensures
        square.spec_ray_intersect(origin, direction).is_intersecting
            == square.spec_is_point_inside(square.crossing_point(origin, direction)),
        square.spec_ray_intersect(origin, direction).is_intersecting ==> square.spec_ray_intersect(
            origin,
            direction,
        ).normal == Vec3::spec_unit_y(),
{
}

} // verus!

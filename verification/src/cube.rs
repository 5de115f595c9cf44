//! Axis-aligned cubes, tested by the slab method.

use vstd::prelude::*;
use std::rc::Rc;
use crate::material::Material;
use crate::ray_intersect::{Intersect, RayIntersect};
use crate::scalar::{lemma_div_by_units, lemma_mul_by_units, magnitude, Scalar, LIMIT, SCALE};
use crate::vector::{lemma_axis_is_unit, Vec3};

verus! {

/// How close to the plane of a face a hit point must lie to take that face's
/// normal: one ten-thousandth, in raw units.
pub const FACE_EPSILON: i64 = 100_000;

/// The two parameters at which a ray that starts at coordinate `origin` and
/// moves by `direction` per unit crosses the coordinates `low` and `high`,
/// the smaller one first. A ray that does not move along the axis crosses at
/// the ends of the number range.
pub open spec fn spec_slab(low: Scalar, high: Scalar, origin: Scalar, direction: Scalar) -> (
    Scalar,
    Scalar,
) {
    let t0 = low.spec_sub(origin).spec_div(direction);
    let t1 = high.spec_sub(origin).spec_div(direction);
    if t0@ > t1@ {
        (t1, t0)
    } else {
        (t0, t1)
    }
}

/// Whether `a` lies within `FACE_EPSILON` of `b`.
pub open spec fn spec_on_plane(a: Scalar, b: Scalar) -> bool {
    a.spec_sub(b).spec_abs()@ < FACE_EPSILON
}

#[verifier::when_used_as_spec(spec_slab)]
pub fn slab(low: Scalar, high: Scalar, origin: Scalar, direction: Scalar) -> (r: (Scalar, Scalar))
    ensures
        r == spec_slab(low, high, origin, direction),
        r.0@ <= r.1@,
{
    let t0 = low.sub(origin).div(direction);
    let t1 = high.sub(origin).div(direction);
    if t0.gt(t1) {
        (t1, t0)
    } else {
        (t0, t1)
    }
}

#[verifier::when_used_as_spec(spec_on_plane)]
pub fn on_plane(a: Scalar, b: Scalar) -> (r: bool)
    ensures
        r == spec_on_plane(a, b),
{
    a.sub(b).abs().units() < FACE_EPSILON
}

/// A cube with edges of length `size` around `center`, its faces square to
/// the axes.
#[derive(Debug)]
pub struct Cube {
    pub center: Vec3,
    pub size: Scalar,
    pub material: Rc<Material>,
}

impl Cube {
    pub open spec fn spec_half_size(&self) -> Scalar {
        self.size.spec_div(Scalar::spec_from_int(2))
    }

    /// The corner with the smallest coordinates.
    pub open spec fn spec_min_corner(&self) -> Vec3 {
        self.center.spec_sub(
            Vec3 { x: self.spec_half_size(), y: self.spec_half_size(), z: self.spec_half_size() },
        )
    }

    /// The corner with the largest coordinates.
    pub open spec fn spec_max_corner(&self) -> Vec3 {
        self.center.spec_add(
            Vec3 { x: self.spec_half_size(), y: self.spec_half_size(), z: self.spec_half_size() },
        )
    }

    /// Where the ray is between the two faces that are square to the x axis.
    pub open spec fn slab_x(&self, origin: Vec3, direction: Vec3) -> (Scalar, Scalar) {
        spec_slab(self.spec_min_corner().x, self.spec_max_corner().x, origin.x, direction.x)
    }

    /// Where the ray is between the two faces that are square to the y axis.
    pub open spec fn slab_y(&self, origin: Vec3, direction: Vec3) -> (Scalar, Scalar) {
        spec_slab(self.spec_min_corner().y, self.spec_max_corner().y, origin.y, direction.y)
    }

    /// Where the ray is between the two faces that are square to the z axis.
    pub open spec fn slab_z(&self, origin: Vec3, direction: Vec3) -> (Scalar, Scalar) {
        spec_slab(self.spec_min_corner().z, self.spec_max_corner().z, origin.z, direction.z)
    }

    /// Where the ray is between the two faces that are square to the axis
    /// 0 (x), 1 (y) or any other number (z).
    pub open spec fn slab_along(&self, axis: int, origin: Vec3, direction: Vec3) -> (
        Scalar,
        Scalar,
    ) {
        if axis == 0 {
            self.slab_x(origin, direction)
        } else if axis == 1 {
            self.slab_y(origin, direction)
        } else {
            self.slab_z(origin, direction)
        }
    }

    /// The parameter from which the ray is inside all three slabs.
    pub open spec fn entry(&self, origin: Vec3, direction: Vec3) -> Scalar {
        self.slab_x(origin, direction).0.spec_max(self.slab_y(origin, direction).0).spec_max(
            self.slab_z(origin, direction).0,
        )
    }

    /// The parameter up to which the ray is inside all three slabs.
    pub open spec fn exit(&self, origin: Vec3, direction: Vec3) -> Scalar {
        self.slab_x(origin, direction).1.spec_min(self.slab_y(origin, direction).1).spec_min(
            self.slab_z(origin, direction).1,
        )
    }

    /// The ray hits when the three slabs have a parameter in common and the
    /// first such parameter is not behind the origin.
    pub open spec fn hits(&self, origin: Vec3, direction: Vec3) -> bool {
        self.entry(origin, direction)@ <= self.exit(origin, direction)@ && self.entry(
            origin,
            direction,
        )@ >= 0
    }

    /// The outward normal of the first face, in the order low x, high x,
    /// low y, high y, low z, high z, whose plane `point` lies on; none if it
    /// lies on none.
    pub open spec fn spec_face_normal(&self, point: Vec3) -> Option<Vec3> {
        let low = self.spec_min_corner();
        let high = self.spec_max_corner();
        if spec_on_plane(point.x, low.x) {
            Some(Vec3::axis(0, false))
        } else if spec_on_plane(point.x, high.x) {
            Some(Vec3::axis(0, true))
        } else if spec_on_plane(point.y, low.y) {
            Some(Vec3::axis(1, false))
        } else if spec_on_plane(point.y, high.y) {
            Some(Vec3::axis(1, true))
        } else if spec_on_plane(point.z, low.z) {
            Some(Vec3::axis(2, false))
        } else if spec_on_plane(point.z, high.z) {
            Some(Vec3::axis(2, true))
        } else {
            None
        }
    }

    /// The point at which the ray enters the cube.
    pub open spec fn entry_point(&self, origin: Vec3, direction: Vec3) -> Vec3 {
        origin.spec_add(direction.spec_scale(self.entry(origin, direction)))
    }

    /// The axis, 0 for x, 1 for y and 2 for z, whose slab the ray enters
    /// last, so that it enters the cube through a face square to that axis.
    /// Of several slabs entered together, x goes before y, and y before z.
    pub open spec fn entry_axis(&self, origin: Vec3, direction: Vec3) -> int {
        let x = self.slab_x(origin, direction).0@;
        let y = self.slab_y(origin, direction).0@;
        let z = self.slab_z(origin, direction).0@;
        if x >= y && x >= z {
            0
        } else if y >= z {
            1
        } else {
            2
        }
    }

    /// Whether the ray comes to the cube from the side of growing
    /// coordinates along `axis`: it moves against the axis, or does not
    /// move along it and starts beyond the centre of the cube.
    pub open spec fn comes_from_above(&self, axis: int, origin: Vec3, direction: Vec3) -> bool {
        let d = direction.component(axis)@;
        d < 0 || (d == 0 && origin.component(axis)@ > self.center.component(axis)@)
    }

    /// The outward normal of the face through which the ray enters the
    /// cube: it lies on the entry axis and looks back at where the ray
    /// comes from.
    pub open spec fn spec_entry_face_normal(&self, origin: Vec3, direction: Vec3) -> Vec3 {
        let axis = self.entry_axis(origin, direction);
        Vec3::axis(axis, self.comes_from_above(axis, origin, direction))
    }

    /// The normal of a hit: that of the first face, in order, on whose plane
    /// the point of entry lies; where rounding has left that point on no
    /// plane, that of the face through which the ray enters.
    pub open spec fn hit_normal(&self, origin: Vec3, direction: Vec3) -> Vec3 {
        match self.spec_face_normal(self.entry_point(origin, direction)) {
            Some(normal) => normal,
            None => self.spec_entry_face_normal(origin, direction),
        }
    }

    #[verifier::when_used_as_spec(spec_half_size)]
    pub fn half_size(&self) -> (r: Scalar)
        ensures
            r == self.spec_half_size(),
    {
        self.size.div(Scalar::from_int(2))
    }

    #[verifier::when_used_as_spec(spec_min_corner)]
    pub fn min_corner(&self) -> (r: Vec3)
        ensures
            r == self.spec_min_corner(),
    {
        let half = self.half_size();
        self.center.sub(Vec3::new(half, half, half))
    }

    #[verifier::when_used_as_spec(spec_max_corner)]
    pub fn max_corner(&self) -> (r: Vec3)
        ensures
            r == self.spec_max_corner(),
    {
        let half = self.half_size();
        self.center.add(Vec3::new(half, half, half))
    }

    #[verifier::when_used_as_spec(spec_face_normal)]
    pub fn face_normal(&self, point: Vec3) -> (n: Option<Vec3>)
        ensures
            n == self.spec_face_normal(point),
    {
        let low = self.min_corner();
        let high = self.max_corner();
        if on_plane(point.x, low.x) {
            Some(Vec3::along(0, false))
        } else if on_plane(point.x, high.x) {
            Some(Vec3::along(0, true))
        } else if on_plane(point.y, low.y) {
            Some(Vec3::along(1, false))
        } else if on_plane(point.y, high.y) {
            Some(Vec3::along(1, true))
        } else if on_plane(point.z, low.z) {
            Some(Vec3::along(2, false))
        } else if on_plane(point.z, high.z) {
            Some(Vec3::along(2, true))
        } else {
            None
        }
    }

    /// The outward normal of the face through which the ray enters the
    /// cube.
    #[verifier::when_used_as_spec(spec_entry_face_normal)]
    pub fn entry_face_normal(&self, origin: Vec3, direction: Vec3) -> (n: Vec3)
        ensures
            n == self.spec_entry_face_normal(origin, direction),
    {
        let min = self.min_corner();
        let max = self.max_corner();
        let (x, _) = slab(min.x, max.x, origin.x, direction.x);
        let (y, _) = slab(min.y, max.y, origin.y, direction.y);
        let (z, _) = slab(min.z, max.z, origin.z, direction.z);
        if x.ge(y) && x.ge(z) {
            Vec3::along(0, Cube::from_above(origin.x, direction.x, self.center.x))
        } else if y.ge(z) {
            Vec3::along(1, Cube::from_above(origin.y, direction.y, self.center.y))
        } else {
            Vec3::along(2, Cube::from_above(origin.z, direction.z, self.center.z))
        }
    }

    /// Whether a coordinate that starts at `origin` and moves by `direction`
    /// comes to `center` from above.
    fn from_above(origin: Scalar, direction: Scalar, center: Scalar) -> (above: bool)
        ensures
            above == (direction@ < 0 || (direction@ == 0 && origin@ > center@)),
    {
        direction.lt(Scalar::zero()) || (direction.units() == 0 && origin.gt(center))
    }
}

impl RayIntersect for Cube {
    /// A hit at the point of entry, with the normal of the face entered, if
    /// the ray hits; else a miss.
    open spec fn spec_ray_intersect(&self, ray_origin: Vec3, ray_direction: Vec3) -> Intersect {
        if self.hits(ray_origin, ray_direction) {
            Intersect::spec_new(
                self.entry_point(ray_origin, ray_direction),
                self.hit_normal(ray_origin, ray_direction),
                self.entry(ray_origin, ray_direction),
                self.material,
            )
        } else {
            Intersect::spec_empty()
        }
    }

    fn ray_intersect(&self, ray_origin: &Vec3, ray_direction: &Vec3) -> (r: Intersect) {
        let min = self.min_corner();
        let max = self.max_corner();

        let (mut t_min, mut t_max) = slab(min.x, max.x, ray_origin.x, ray_direction.x);
        let (ty_min, ty_max) = slab(min.y, max.y, ray_origin.y, ray_direction.y);

        if t_min.gt(ty_max) || ty_min.gt(t_max) {
            return Intersect::empty();
        }
        t_min = t_min.max(ty_min);
        t_max = t_max.min(ty_max);

        let (tz_min, tz_max) = slab(min.z, max.z, ray_origin.z, ray_direction.z);

        if t_min.gt(tz_max) || tz_min.gt(t_max) {
            return Intersect::empty();
        }
        t_min = t_min.max(tz_min);
        t_max = t_max.min(tz_max);

        if t_min.lt(Scalar::zero()) {
            return Intersect::empty();
        }
        let point = ray_origin.add(ray_direction.scale(t_min));
        let normal = match self.face_normal(point) {
            Some(normal) => normal,
            None => self.entry_face_normal(*ray_origin, *ray_direction),
        };
        Intersect::new(point, normal, t_min, Rc::clone(&self.material))
    }
}

/// Every hit has the outward normal of one of the six faces, a unit vector
/// along an axis: that of the first face, in order, on whose plane the hit
/// point lies, and else that of the face through which the ray enters.
pub proof fn lemma_cube_hit_normal_is_axis(cube: Cube, origin: Vec3, direction: Vec3)
    requires
        cube.spec_ray_intersect(origin, direction).is_intersecting,
    ensures
        cube.spec_ray_intersect(origin, direction).normal.is_axis(),
        cube.spec_ray_intersect(origin, direction).normal.spec_magnitude() == Scalar::spec_one(),
        cube.spec_face_normal(cube.spec_ray_intersect(origin, direction).point) matches Some(face)
            ==> cube.spec_ray_intersect(origin, direction).normal == face,
        cube.spec_face_normal(cube.spec_ray_intersect(origin, direction).point) is None
            ==> cube.spec_ray_intersect(origin, direction).normal == cube.spec_entry_face_normal(
            origin,
            direction,
        ),
{
    lemma_axis_is_unit(0, true);
    lemma_axis_is_unit(0, false);
    lemma_axis_is_unit(1, true);
    lemma_axis_is_unit(1, false);
    lemma_axis_is_unit(2, true);
    lemma_axis_is_unit(2, false);
}

/// The face through which a ray enters looks back along the ray: the ray
/// does not move the way its normal points.
pub proof fn lemma_entry_face_looks_back(cube: Cube, origin: Vec3, direction: Vec3)
    ensures
        cube.spec_entry_face_normal(origin, direction).is_axis(),
        direction.spec_dot(cube.spec_entry_face_normal(origin, direction))@ <= 0,
{
    lemma_mul_by_units(direction.x);
    lemma_mul_by_units(direction.y);
    lemma_mul_by_units(direction.z);
}

/// A ray that enters the slab of one axis only after it has left the slab
/// of another passes beside the cube: it does not hit.
pub proof fn lemma_disjoint_slabs_miss(cube: Cube, origin: Vec3, direction: Vec3, a: int, b: int)
    requires
        cube.slab_along(a, origin, direction).0@ > cube.slab_along(b, origin, direction).1@,
    ensures
        !cube.spec_ray_intersect(origin, direction).is_intersecting,
{
}

/// Along an axis on which the ray does not move, it is inside the slab
/// never, if it starts beyond both faces: the slab's parameters then are
/// both the low end of the number range, or both the high end.
pub proof fn lemma_slab_of_still_ray(low: Scalar, high: Scalar, origin: Scalar, direction: Scalar)
    requires
        direction@ == 0,
    ensures
        origin@ > low@ && origin@ > high@ ==> spec_slab(low, high, origin, direction).1@ == -LIMIT,
        origin@ < low@ && origin@ < high@ ==> spec_slab(low, high, origin, direction).0@ == LIMIT,
{
    let dl = low.spec_sub(origin)@;
    let dh = high.spec_sub(origin)@;
    assert(dl < 0 ==> dl * LIMIT <= -LIMIT) by (nonlinear_arith);
    assert(dh < 0 ==> dh * LIMIT <= -LIMIT) by (nonlinear_arith);
    assert(dl > 0 ==> dl * LIMIT >= LIMIT) by (nonlinear_arith);
    assert(dh > 0 ==> dh * LIMIT >= LIMIT) by (nonlinear_arith);
}

/// A ray that does not move along an axis and starts beyond the cube on
/// that axis does not hit: not when it starts above both faces, and not
/// when it starts below both and leaves the slab of another axis at all.
pub proof fn lemma_parallel_beside_misses(
    cube: Cube,
    origin: Vec3,
    direction: Vec3,
    a: int,
    b: int,
)
    requires
        direction.component(a)@ == 0,
        ({
            &&& origin.component(a)@ > cube.spec_min_corner().component(a)@
            &&& origin.component(a)@ > cube.spec_max_corner().component(a)@
        }) || ({
            &&& origin.component(a)@ < cube.spec_min_corner().component(a)@
            &&& origin.component(a)@ < cube.spec_max_corner().component(a)@
            &&& cube.slab_along(b, origin, direction).1@ < LIMIT
        }),
    ensures
        !cube.spec_ray_intersect(origin, direction).is_intersecting,
{
    lemma_slab_of_still_ray(
        cube.spec_min_corner().component(a),
        cube.spec_max_corner().component(a),
        origin.component(a),
        direction.component(a),
    );
    let along = cube.slab_along(a, origin, direction);
    assert(along == spec_slab(
        cube.spec_min_corner().component(a),
        cube.spec_max_corner().component(a),
        origin.component(a),
        direction.component(a),
    ));
    if along.1@ == -LIMIT {
        assert(cube.exit(origin, direction)@ <= along.1@);
    } else {
        assert(along.0@ == LIMIT);
        lemma_disjoint_slabs_miss(cube, origin, direction, a, b);
    }
}

/// A coordinate that moves away from a slab, no faster than one per unit of
/// the parameter, was inside the slab only at negative parameters.
pub proof fn lemma_slab_left_behind(low: Scalar, high: Scalar, origin: Scalar, direction: Scalar)
    requires
        0 < magnitude(direction@) <= SCALE,
        (direction@ > 0 && origin@ > low@ && origin@ > high@) || (direction@ < 0 && origin@ < low@
            && origin@ < high@),
    ensures
        spec_slab(low, high, origin, direction).1@ < 0,
{
    let d = magnitude(direction@);
    let dl = magnitude(low.spec_sub(origin)@);
    let dh = magnitude(high.spec_sub(origin)@);
    assert((dl * SCALE) / d >= 1 && (dh * SCALE) / d >= 1) by (nonlinear_arith)
        requires
            0 < d <= SCALE,
            dl >= 1,
            dh >= 1,
    ;
    assert(magnitude(low.spec_sub(origin)@ * SCALE) == dl * SCALE) by (nonlinear_arith)
        requires
            dl == magnitude(low.spec_sub(origin)@),
            SCALE > 0,
    ;
    assert(magnitude(high.spec_sub(origin)@ * SCALE) == dh * SCALE) by (nonlinear_arith)
        requires
            dh == magnitude(high.spec_sub(origin)@),
            SCALE > 0,
    ;
    assert((low.spec_sub(origin)@ * SCALE < 0) == (low.spec_sub(origin)@ < 0)) by (nonlinear_arith)
        requires
            low.spec_sub(origin)@ != 0,
            SCALE > 0,
    ;
    assert((high.spec_sub(origin)@ * SCALE < 0) == (high.spec_sub(origin)@ < 0))
        by (nonlinear_arith)
        requires
            high.spec_sub(origin)@ != 0,
            SCALE > 0,
    ;
}

/// A ray that starts beyond the cube on some axis and moves further away
/// along it, no faster than one per unit of the parameter, does not hit.
pub proof fn lemma_moving_away_misses(cube: Cube, origin: Vec3, direction: Vec3, a: int)
    requires
        0 < magnitude(direction.component(a)@) <= SCALE,
        ({
            &&& direction.component(a)@ > 0
            &&& origin.component(a)@ > cube.spec_min_corner().component(a)@
            &&& origin.component(a)@ > cube.spec_max_corner().component(a)@
        }) || ({
            &&& direction.component(a)@ < 0
            &&& origin.component(a)@ < cube.spec_min_corner().component(a)@
            &&& origin.component(a)@ < cube.spec_max_corner().component(a)@
        }),
    ensures
        !cube.spec_ray_intersect(origin, direction).is_intersecting,
{
    lemma_slab_left_behind(
        cube.spec_min_corner().component(a),
        cube.spec_max_corner().component(a),
        origin.component(a),
        direction.component(a),
    );
    let along = cube.slab_along(a, origin, direction);
    assert(along == spec_slab(
        cube.spec_min_corner().component(a),
        cube.spec_max_corner().component(a),
        origin.component(a),
        direction.component(a),
    ));
    assert(cube.exit(origin, direction)@ <= along.1@);
}

/// A ray that starts past the cube, so that every parameter at which its
/// line is inside the cube is negative, does not hit.
pub proof fn lemma_cube_behind_misses(cube: Cube, origin: Vec3, direction: Vec3)
    requires
        cube.exit(origin, direction)@ < 0,
    ensures
        !cube.spec_ray_intersect(origin, direction).is_intersecting,
{
}

/// A hit lies at the parameter of entry, which is not negative and at which
/// the ray is inside every slab; its point is where the ray is at that
/// parameter, and its material is the cube's.
pub proof fn lemma_cube_hit_is_entry(cube: Cube, origin: Vec3, direction: Vec3, axis: int)
    requires
        cube.spec_ray_intersect(origin, direction).is_intersecting,
    ensures
        cube.spec_ray_intersect(origin, direction).distance == cube.entry(origin, direction),
        cube.spec_ray_intersect(origin, direction).distance@ >= 0,
        cube.spec_ray_intersect(origin, direction).point == origin.spec_add(
            direction.spec_scale(cube.spec_ray_intersect(origin, direction).distance),
        ),
        cube.spec_ray_intersect(origin, direction).material == cube.material,
        cube.slab_along(axis, origin, direction).0@ <= cube.entry(origin, direction)@,
        cube.entry(origin, direction)@ <= cube.slab_along(axis, origin, direction).1@,
{
}

/// Along the axis of a ray that runs at unit speed toward a slab from
/// `gap` outside it, the ray is inside the slab from `gap` until it has
/// also crossed the slab's width.
proof fn lemma_slab_square_on(
    low: Scalar,
    high: Scalar,
    origin: Scalar,
    direction: Scalar,
    gap: int,
)
    requires
        gap > 0,
        low@ <= high@,
        high@ - low@ + gap <= LIMIT,
        (direction == Scalar::spec_one().spec_neg() && origin@ == high@ + gap) || (direction
            == Scalar::spec_one() && origin@ == low@ - gap),
    ensures
        spec_slab(low, high, origin, direction).0@ == gap,
        spec_slab(low, high, origin, direction).1@ == high@ - low@ + gap,
{
    lemma_div_by_units(low.spec_sub(origin));
    lemma_div_by_units(high.spec_sub(origin));
}

/// Along an axis on which the ray does not move, it is inside the slab
/// always, if it starts strictly between the faces.
proof fn lemma_slab_of_still_ray_inside(low: Scalar, high: Scalar, origin: Scalar, direction: Scalar)
    requires
        direction@ == 0,
        low@ < origin@ < high@,
    ensures
        spec_slab(low, high, origin, direction).0@ == -LIMIT,
        spec_slab(low, high, origin, direction).1@ == LIMIT,
{
    lemma_div_by_units(low.spec_sub(origin));
    lemma_div_by_units(high.spec_sub(origin));
    assert(low.spec_sub(origin).spec_div(direction) == low.spec_sub(origin).spec_div(
        Scalar::spec_zero(),
    ));
    assert(high.spec_sub(origin).spec_div(direction) == high.spec_sub(origin).spec_div(
        Scalar::spec_zero(),
    ));
}

/// Where a ray aimed square at the middle of a face starts, and where the
/// corners of the cube lie, in raw units.
pub proof fn lemma_face_ray_start(cube: Cube, axis: int, positive: bool, gap: Scalar, k: int)
    requires
        0 <= axis <= 2,
        0 <= k <= 2,
        gap@ > 0,
        cube.spec_half_size()@ >= FACE_EPSILON,
        magnitude(cube.center.component(k)@) + 2 * cube.spec_half_size()@ + gap@ <= LIMIT,
    ensures
        ({
            let half = cube.spec_half_size();
            let normal = Vec3::axis(axis, positive);
            let origin = cube.center.spec_add(normal.spec_scale(half.spec_add(gap)));
            let middle = cube.center.spec_add(normal.spec_scale(half));
            let c = cube.center.component(k)@;
            &&& cube.spec_min_corner().component(k)@ == c - half@
            &&& cube.spec_max_corner().component(k)@ == c + half@
            &&& k != axis ==> origin.component(k)@ == c && middle.component(k)@ == c
            &&& k == axis && positive ==> origin.component(k)@ == c + half@ + gap@
                && middle.component(k)@ == c + half@
            &&& k == axis && !positive ==> origin.component(k)@ == c - half@ - gap@
                && middle.component(k)@ == c - half@
            &&& k != axis ==> normal.spec_neg().component(k)@ == 0
            &&& k == axis && positive ==> normal.spec_neg().component(k) == Scalar::spec_one().spec_neg()
            &&& k == axis && !positive ==> normal.spec_neg().component(k) == Scalar::spec_one()
        }),
{
    let half = cube.spec_half_size();
    lemma_mul_by_units(half.spec_add(gap));
    lemma_mul_by_units(half);
}

/// Where a ray aimed square at the middle of a face is inside the slab of
/// axis `k`: from `gap` until past the cube along its own axis, and always
/// along the other two.
proof fn lemma_face_ray_slab(cube: Cube, axis: int, positive: bool, gap: Scalar, k: int)
    requires
        0 <= axis <= 2,
        0 <= k <= 2,
        gap@ > 0,
        cube.spec_half_size()@ >= FACE_EPSILON,
        magnitude(cube.center.component(k)@) + 2 * cube.spec_half_size()@ + gap@ <= LIMIT,
    ensures
        ({
            let half = cube.spec_half_size();
            let normal = Vec3::axis(axis, positive);
            let origin = cube.center.spec_add(normal.spec_scale(half.spec_add(gap)));
            let along = cube.slab_along(k, origin, normal.spec_neg());
            &&& k == axis ==> along.0@ == gap@ && along.1@ == 2 * half@ + gap@
            &&& k != axis ==> along.0@ == -LIMIT && along.1@ == LIMIT
        }),
{
    let half = cube.spec_half_size();
    let normal = Vec3::axis(axis, positive);
    let direction = normal.spec_neg();
    let origin = cube.center.spec_add(normal.spec_scale(half.spec_add(gap)));
    let low = cube.spec_min_corner();
    let high = cube.spec_max_corner();
    lemma_face_ray_start(cube, axis, positive, gap, k);
    if k == axis {
        lemma_slab_square_on(
            low.component(k),
            high.component(k),
            origin.component(k),
            direction.component(k),
            gap@,
        );
    } else {
        lemma_slab_of_still_ray_inside(
            low.component(k),
            high.component(k),
            origin.component(k),
            direction.component(k),
        );
    }
    assert(cube.slab_along(k, origin, direction) == spec_slab(
        low.component(k),
        high.component(k),
        origin.component(k),
        direction.component(k),
    ));
}

/// The middle of a face has the normal of that face.
proof fn lemma_face_normal_of_middle(cube: Cube, axis: int, positive: bool)
    requires
        0 <= axis <= 2,
        cube.spec_half_size()@ >= FACE_EPSILON,
        magnitude(cube.center.x@) + 2 * cube.spec_half_size()@ + 1 <= LIMIT,
        magnitude(cube.center.y@) + 2 * cube.spec_half_size()@ + 1 <= LIMIT,
        magnitude(cube.center.z@) + 2 * cube.spec_half_size()@ + 1 <= LIMIT,
    ensures
        cube.spec_face_normal(
            cube.center.spec_add(Vec3::axis(axis, positive).spec_scale(cube.spec_half_size())),
        ) == Some(Vec3::axis(axis, positive)),
{
    let one = Scalar { raw: 1 };
    lemma_face_ray_start(cube, axis, positive, one, 0);
    lemma_face_ray_start(cube, axis, positive, one, 1);
    lemma_face_ray_start(cube, axis, positive, one, 2);
}

/// A ray that starts `gap` outside the middle of a face and runs square at
/// it hits the cube there: after `gap`, in the middle of the face, with the
/// outward normal of that face. This holds of a cube whose half size is at
/// least the tolerance of its faces, while the coordinates stay within the
/// number range.
pub proof fn lemma_face_center_hit(cube: Cube, axis: int, positive: bool, gap: Scalar)
    requires
        0 <= axis <= 2,
        gap@ > 0,
        cube.spec_half_size()@ >= FACE_EPSILON,
        magnitude(cube.center.x@) + 2 * cube.spec_half_size()@ + gap@ <= LIMIT,
        magnitude(cube.center.y@) + 2 * cube.spec_half_size()@ + gap@ <= LIMIT,
        magnitude(cube.center.z@) + 2 * cube.spec_half_size()@ + gap@ <= LIMIT,
    ensures
        ({
            let normal = Vec3::axis(axis, positive);
            let origin = cube.center.spec_add(
                normal.spec_scale(cube.spec_half_size().spec_add(gap)),
            );
            let hit = cube.spec_ray_intersect(origin, normal.spec_neg());
            &&& hit.is_intersecting
            &&& hit.normal == normal
            &&& hit.distance@ == gap@
            &&& hit.point == cube.center.spec_add(normal.spec_scale(cube.spec_half_size()))
        }),
{
    let half = cube.spec_half_size();
    let normal = Vec3::axis(axis, positive);
    let direction = normal.spec_neg();
    let origin = cube.center.spec_add(normal.spec_scale(half.spec_add(gap)));
    let middle = cube.center.spec_add(normal.spec_scale(half));
    lemma_face_ray_slab(cube, axis, positive, gap, 0);
    lemma_face_ray_slab(cube, axis, positive, gap, 1);
    lemma_face_ray_slab(cube, axis, positive, gap, 2);
    assert(cube.slab_along(0, origin, direction) == cube.slab_x(origin, direction));
    assert(cube.slab_along(1, origin, direction) == cube.slab_y(origin, direction));
    assert(cube.slab_along(2, origin, direction) == cube.slab_z(origin, direction));
    let entry = cube.entry(origin, direction);
    assert(entry@ == gap@);
    assert(cube.exit(origin, direction)@ == 2 * half@ + gap@);
    assert(cube.hits(origin, direction));
    lemma_face_entry_point(cube, axis, positive, gap, entry);
    lemma_face_normal_of_middle(cube, axis, positive);
}

/// A ray aimed square at the middle of a face is there after `gap`.
proof fn lemma_face_entry_point(cube: Cube, axis: int, positive: bool, gap: Scalar, entry: Scalar)
    requires
        0 <= axis <= 2,
        gap@ > 0,
        entry@ == gap@,
        cube.spec_half_size()@ >= FACE_EPSILON,
        magnitude(cube.center.x@) + 2 * cube.spec_half_size()@ + gap@ <= LIMIT,
        magnitude(cube.center.y@) + 2 * cube.spec_half_size()@ + gap@ <= LIMIT,
        magnitude(cube.center.z@) + 2 * cube.spec_half_size()@ + gap@ <= LIMIT,
    ensures
        ({
            let normal = Vec3::axis(axis, positive);
            let origin = cube.center.spec_add(
                normal.spec_scale(cube.spec_half_size().spec_add(gap)),
            );
            origin.spec_add(normal.spec_neg().spec_scale(entry)) == cube.center.spec_add(
                normal.spec_scale(cube.spec_half_size()),
            )
        }),
{
    lemma_face_ray_start(cube, axis, positive, gap, 0);
    lemma_face_ray_start(cube, axis, positive, gap, 1);
    lemma_face_ray_start(cube, axis, positive, gap, 2);
    lemma_mul_by_units(entry);
    lemma_mul_by_units(cube.spec_half_size());
}

} // verus!

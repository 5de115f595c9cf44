//! Three-component vectors of fixed-point numbers.

use vstd::prelude::*;
use crate::scalar::{
    isqrt, isqrt_u128, lemma_add_neg, lemma_div_by_units, lemma_isqrt_unique, lemma_mul_neg,
    lemma_quotient_of_multiple, magnitude, Scalar, LIMIT, SCALE,
};

verus! {

/// A point or a direction in space.
#[derive(Clone, Copy, Debug, PartialEq, Eq, Structural)]
pub struct Vec3 {
    pub x: Scalar,
    pub y: Scalar,
    pub z: Scalar,
}

impl Vec3 {
    pub open spec fn spec_new(x: Scalar, y: Scalar, z: Scalar) -> Vec3 {
        Vec3 { x, y, z }
    }

    pub open spec fn spec_zeros() -> Vec3 {
        Vec3 { x: Scalar::spec_zero(), y: Scalar::spec_zero(), z: Scalar::spec_zero() }
    }

    pub open spec fn spec_from_ints(x: i64, y: i64, z: i64) -> Vec3 {
        Vec3 {
            x: Scalar::spec_from_int(x),
            y: Scalar::spec_from_int(y),
            z: Scalar::spec_from_int(z),
        }
    }

    pub open spec fn spec_unit_x() -> Vec3 {
        Vec3 { x: Scalar::spec_one(), y: Scalar::spec_zero(), z: Scalar::spec_zero() }
    }

    pub open spec fn spec_unit_y() -> Vec3 {
        Vec3 { x: Scalar::spec_zero(), y: Scalar::spec_one(), z: Scalar::spec_zero() }
    }

    pub open spec fn spec_unit_z() -> Vec3 {
        Vec3 { x: Scalar::spec_zero(), y: Scalar::spec_zero(), z: Scalar::spec_one() }
    }

    /// The component along axis 0 (x), 1 (y) or any other number (z).
    pub open spec fn component(self, axis: int) -> Scalar {
        if axis == 0 {
            self.x
        } else if axis == 1 {
            self.y
        } else {
            self.z
        }
    }

    /// The unit vector along axis 0 (x), 1 (y) or any other number (z),
    /// toward growing coordinates if `positive`, else against them.
    pub open spec fn axis(axis: int, positive: bool) -> Vec3 {
        let along = if axis == 0 {
            Vec3::spec_unit_x()
        } else if axis == 1 {
            Vec3::spec_unit_y()
        } else {
            Vec3::spec_unit_z()
        };
        if positive {
            along
        } else {
            along.spec_neg()
        }
    }

    /// Whether the vector is one of the six unit vectors along the axes.
    pub open spec fn is_axis(self) -> bool {
        ||| self == Vec3::axis(0, true)
        ||| self == Vec3::axis(0, false)
        ||| self == Vec3::axis(1, true)
        ||| self == Vec3::axis(1, false)
        ||| self == Vec3::axis(2, true)
        ||| self == Vec3::axis(2, false)
    }

    pub open spec fn spec_neg(self) -> Vec3 {
        Vec3 { x: self.x.spec_neg(), y: self.y.spec_neg(), z: self.z.spec_neg() }
    }

    pub open spec fn spec_add(self, other: Vec3) -> Vec3 {
        Vec3 {
            x: self.x.spec_add(other.x),
            y: self.y.spec_add(other.y),
            z: self.z.spec_add(other.z),
        }
    }

    pub open spec fn spec_sub(self, other: Vec3) -> Vec3 {
        Vec3 {
            x: self.x.spec_sub(other.x),
            y: self.y.spec_sub(other.y),
            z: self.z.spec_sub(other.z),
        }
    }

    /// Every component multiplied by `k`.
    pub open spec fn spec_scale(self, k: Scalar) -> Vec3 {
        Vec3 { x: self.x.spec_mul(k), y: self.y.spec_mul(k), z: self.z.spec_mul(k) }
    }

    /// Every component divided by `k`.
    pub open spec fn spec_shrink(self, k: Scalar) -> Vec3 {
        Vec3 { x: self.x.spec_div(k), y: self.y.spec_div(k), z: self.z.spec_div(k) }
    }

    /// The sum of the three componentwise products, each rounded on its own.
    pub open spec fn spec_dot(self, other: Vec3) -> Scalar {
        self.x.spec_mul(other.x).spec_add(self.y.spec_mul(other.y)).spec_add(
            self.z.spec_mul(other.z),
        )
    }

    pub open spec fn spec_cross(self, other: Vec3) -> Vec3 {
        Vec3 {
            x: self.y.spec_mul(other.z).spec_sub(self.z.spec_mul(other.y)),
            y: self.z.spec_mul(other.x).spec_sub(self.x.spec_mul(other.z)),
            z: self.x.spec_mul(other.y).spec_sub(self.y.spec_mul(other.x)),
        }
    }

    /// The sum of the squares of the raw components.
    pub open spec fn square_sum(self) -> nat {
        (self.x@ * self.x@ + self.y@ * self.y@ + self.z@ * self.z@) as nat
    }

    /// The Euclidean length, rounded down: the square root is taken of the
    /// exact sum of squares, so only one rounding occurs.
    pub open spec fn spec_magnitude(self) -> Scalar {
        Scalar::of(isqrt(self.square_sum()) as int)
    }

    /// The vector divided by its length. The zero vector stays zero.
    pub open spec fn spec_normalize(self) -> Vec3 {
        self.spec_shrink(self.spec_magnitude())
    }

    #[verifier::when_used_as_spec(spec_new)]
    pub fn new(x: Scalar, y: Scalar, z: Scalar) -> (r: Vec3)
        ensures
            r == Vec3::spec_new(x, y, z),
    {
        Vec3 { x, y, z }
    }

    #[verifier::when_used_as_spec(spec_zeros)]
    pub fn zeros() -> (r: Vec3)
        ensures
            r == Vec3::spec_zeros(),
    {
        Vec3 { x: Scalar::zero(), y: Scalar::zero(), z: Scalar::zero() }
    }

    /// The vector with whole-number components.
    #[verifier::when_used_as_spec(spec_from_ints)]
    pub fn from_ints(x: i64, y: i64, z: i64) -> (r: Vec3)
        ensures
            r == Vec3::spec_from_ints(x, y, z),
    {
        Vec3 { x: Scalar::from_int(x), y: Scalar::from_int(y), z: Scalar::from_int(z) }
    }

    /// The direction of growing x.
    #[verifier::when_used_as_spec(spec_unit_x)]
    pub fn unit_x() -> (r: Vec3)
        ensures
            r == Vec3::spec_unit_x(),
    {
        Vec3 { x: Scalar::one(), y: Scalar::zero(), z: Scalar::zero() }
    }

    /// The direction of growing y.
    #[verifier::when_used_as_spec(spec_unit_y)]
    pub fn unit_y() -> (r: Vec3)
        ensures
            r == Vec3::spec_unit_y(),
    {
        Vec3 { x: Scalar::zero(), y: Scalar::one(), z: Scalar::zero() }
    }

    /// The direction of growing z.
    #[verifier::when_used_as_spec(spec_unit_z)]
    pub fn unit_z() -> (r: Vec3)
        ensures
            r == Vec3::spec_unit_z(),
    {
        Vec3 { x: Scalar::zero(), y: Scalar::zero(), z: Scalar::one() }
    }

    /// The unit vector along axis 0 (x), 1 (y) or any other number (z),
    /// toward growing coordinates if `positive`, else against them.
    pub fn along(axis: u8, positive: bool) -> (r: Vec3)
        ensures
            r == Vec3::axis(axis as int, positive),
    {
        let unit = if axis == 0 {
            Vec3::unit_x()
        } else if axis == 1 {
            Vec3::unit_y()
        } else {
            Vec3::unit_z()
        };
        if positive {
            unit
        } else {
            unit.neg()
        }
    }

    #[verifier::when_used_as_spec(spec_neg)]
    pub fn neg(self) -> (r: Vec3)
        ensures
            r == self.spec_neg(),
    {
        Vec3 { x: self.x.neg(), y: self.y.neg(), z: self.z.neg() }
    }

    #[verifier::when_used_as_spec(spec_add)]
    pub fn add(self, other: Vec3) -> (r: Vec3)
        ensures
            r == self.spec_add(other),
    {
        Vec3 { x: self.x.add(other.x), y: self.y.add(other.y), z: self.z.add(other.z) }
    }

    #[verifier::when_used_as_spec(spec_sub)]
    pub fn sub(self, other: Vec3) -> (r: Vec3)
        ensures
            r == self.spec_sub(other),
    {
        Vec3 { x: self.x.sub(other.x), y: self.y.sub(other.y), z: self.z.sub(other.z) }
    }

    #[verifier::when_used_as_spec(spec_scale)]
    pub fn scale(self, k: Scalar) -> (r: Vec3)
        ensures
            r == self.spec_scale(k),
    {
        Vec3 { x: self.x.mul(k), y: self.y.mul(k), z: self.z.mul(k) }
    }

    #[verifier::when_used_as_spec(spec_shrink)]
    pub fn shrink(self, k: Scalar) -> (r: Vec3)
        ensures
            r == self.spec_shrink(k),
    {
        Vec3 { x: self.x.div(k), y: self.y.div(k), z: self.z.div(k) }
    }

    #[verifier::when_used_as_spec(spec_dot)]
    pub fn dot(self, other: Vec3) -> (r: Scalar)
        ensures
            r == self.spec_dot(other),
    {
        self.x.mul(other.x).add(self.y.mul(other.y)).add(self.z.mul(other.z))
    }

    #[verifier::when_used_as_spec(spec_cross)]
    pub fn cross(self, other: Vec3) -> (r: Vec3)
        ensures
            r == self.spec_cross(other),
    {
        Vec3 {
            x: self.y.mul(other.z).sub(self.z.mul(other.y)),
            y: self.z.mul(other.x).sub(self.x.mul(other.z)),
            z: self.x.mul(other.y).sub(self.y.mul(other.x)),
        }
    }

    #[verifier::when_used_as_spec(spec_magnitude)]
    pub fn magnitude(self) -> (r: Scalar)
        ensures
            r == self.spec_magnitude(),
    {
        let x = self.x.abs().units() as u128;
        let y = self.y.abs().units() as u128;
        let z = self.z.abs().units() as u128;
        assert(x * x == self.x@ * self.x@ && x * x <= LIMIT * LIMIT) by (nonlinear_arith)
            requires
                x == self.x@ || x == -self.x@,
                0 <= x <= LIMIT,
        ;
        assert(y * y == self.y@ * self.y@ && y * y <= LIMIT * LIMIT) by (nonlinear_arith)
            requires
                y == self.y@ || y == -self.y@,
                0 <= y <= LIMIT,
        ;
        assert(z * z == self.z@ * self.z@ && z * z <= LIMIT * LIMIT) by (nonlinear_arith)
            requires
                z == self.z@ || z == -self.z@,
                0 <= z <= LIMIT,
        ;
        assert(LIMIT * LIMIT == 85070591730234615847396907784232501249) by (nonlinear_arith);
        let root = isqrt_u128(x * x + y * y + z * z);
        Scalar::saturating(root as i128)
    }

    #[verifier::when_used_as_spec(spec_normalize)]
    pub fn normalize(self) -> (r: Vec3)
        ensures
            r == self.spec_normalize(),
    {
        self.shrink(self.magnitude())
    }
}

/// A dot product changes sign with either vector.
pub proof fn lemma_dot_neg(a: Vec3, b: Vec3)
    ensures
        a.spec_dot(b.spec_neg()) == a.spec_dot(b).spec_neg(),
{
    lemma_mul_neg(a.x, b.x);
    lemma_mul_neg(a.y, b.y);
    lemma_mul_neg(a.z, b.z);
    lemma_add_neg(a.x.spec_mul(b.x), a.y.spec_mul(b.y));
    lemma_add_neg(a.x.spec_mul(b.x).spec_add(a.y.spec_mul(b.y)), a.z.spec_mul(b.z));
}

/// Scaling the reversed vector by the negated factor gives the same as
/// scaling the vector by the factor.
pub proof fn lemma_scale_neg_neg(a: Vec3, k: Scalar)
    ensures
        a.spec_neg().spec_scale(k.spec_neg()) == a.spec_scale(k),
{
    lemma_mul_neg(a.x, k);
    lemma_mul_neg(a.y, k);
    lemma_mul_neg(a.z, k);
}

/// Whether `i` is one or minus one, in raw units.
pub open spec fn magnitude_one(i: int) -> bool {
    i == SCALE || i == -SCALE
}

/// A unit vector along an axis has length one and is its own normalized
/// form.
pub proof fn lemma_axis_is_unit(axis: int, positive: bool)
    ensures
        Vec3::axis(axis, positive).spec_magnitude() == Scalar::spec_one(),
        Vec3::axis(axis, positive).spec_normalize() == Vec3::axis(axis, positive),
{
    let v = Vec3::axis(axis, positive);
    assert(v.square_sum() == SCALE * SCALE) by (nonlinear_arith)
        requires
            v.square_sum() == (v.x@ * v.x@ + v.y@ * v.y@ + v.z@ * v.z@) as nat,
            (magnitude_one(v.x@) && v.y@ == 0 && v.z@ == 0) || (v.x@ == 0 && magnitude_one(v.y@)
                && v.z@ == 0) || (v.x@ == 0 && v.y@ == 0 && magnitude_one(v.z@)),
    ;
    assert(SCALE * SCALE < (SCALE + 1) * (SCALE + 1)) by (nonlinear_arith);
    lemma_isqrt_unique((SCALE * SCALE) as nat, SCALE as nat);
    lemma_div_by_units(v.x);
    lemma_div_by_units(v.y);
    lemma_div_by_units(v.z);
}

/// A vector that lies along one axis has the magnitude of its one
/// component for its length, and the unit vector along that axis, on the
/// side of that component, for its normalized form.
pub proof fn lemma_normalize_along_axis(v: Vec3, axis: int)
    requires
        0 <= axis <= 2,
        v.component(axis)@ != 0,
        axis != 0 ==> v.x@ == 0,
        axis != 1 ==> v.y@ == 0,
        axis != 2 ==> v.z@ == 0,
    ensures
        v.spec_magnitude()@ == magnitude(v.component(axis)@),
        v.spec_normalize() == Vec3::axis(axis, v.component(axis)@ > 0),
{
    let g = v.component(axis)@;
    let m = magnitude(g);
    assert(v.square_sum() == m * m && m * m < (m + 1) * (m + 1)) by (nonlinear_arith)
        requires
            v.square_sum() == (v.x@ * v.x@ + v.y@ * v.y@ + v.z@ * v.z@) as nat,
            (v.x@ == g && v.y@ == 0 && v.z@ == 0) || (v.x@ == 0 && v.y@ == g && v.z@ == 0) || (v.x@
                == 0 && v.y@ == 0 && v.z@ == g),
            m == g || m == -g,
            m > 0,
    ;
    lemma_isqrt_unique((m * m) as nat, m as nat);
    assert(v.spec_magnitude()@ == m);
    lemma_quotient_of_multiple(SCALE as int, m);
    assert(SCALE * m == m * SCALE && magnitude(g * SCALE) == m * SCALE && 0 * SCALE == 0 && ((g
        * SCALE < 0) == (g < 0))) by (nonlinear_arith)
        requires
            m == g || m == -g,
            m > 0,
            m == magnitude(g),
            SCALE > 0,
    ;
    let length = v.spec_magnitude();
    assert(v.component(axis).spec_div(length)@ == if g > 0 {
        SCALE as int
    } else {
        -(SCALE as int)
    });
}

} // verus!

//! Saturating fixed-point numbers.
//!
//! A [`Scalar`] counts billionths: its view is an integer number of raw units,
//! and the number it stands for is that integer divided by [`SCALE`]. Every
//! operation computes the exact integer result, rounds a quotient toward zero
//! and then saturates to `-LIMIT ..= LIMIT`, so no operation overflows, wraps
//! or panics. The two ends of the range play the part of the infinities:
//! dividing a nonzero number by zero gives the end with the sign of the
//! dividend.

use vstd::prelude::*;

verus! {

/// Raw units in the number one.
pub const SCALE: i64 = 1_000_000_000;

/// Largest magnitude of a scalar, in raw units.
pub const LIMIT: i64 = 9_223_372_036_854_775_807;

/// Number of binary digits of a fractional exponent that `powf` honours.
pub const EXPONENT_BITS: u32 = 32;

/// The integer `i` brought into `-LIMIT ..= LIMIT`.
pub open spec fn saturate(i: int) -> int {
    if i > LIMIT {
        LIMIT as int
    } else if i < -LIMIT {
        -(LIMIT as int)
    } else {
        i
    }
}

/// Absolute value of an integer.
pub open spec fn magnitude(i: int) -> int {
    if i < 0 {
        -i
    } else {
        i
    }
}

/// The quotient `n / d` rounded toward zero.
pub open spec fn quotient(n: int, d: int) -> int
    recommends
        d != 0,
{
    if (n < 0) == (d < 0) {
        magnitude(n) / magnitude(d)
    } else {
        -(magnitude(n) / magnitude(d))
    }
}

/// The largest integer whose square does not exceed `n`, found one binary
/// digit at a time.
pub open spec fn isqrt(n: nat) -> nat
    decreases n,
{
    if n == 0 {
        0
    } else {
        let r = 2 * isqrt(n / 4);
        if (r + 1) * (r + 1) <= n {
            r + 1
        } else {
            r
        }
    }
}

/// `isqrt(n)` is the floor of the square root of `n`.
pub proof fn lemma_isqrt_bounds(n: nat)
    ensures
        isqrt(n) * isqrt(n) <= n,
        n < (isqrt(n) + 1) * (isqrt(n) + 1),
    decreases n,
{
    if n != 0 {
        let q = n / 4;
        let s = isqrt(q);
        lemma_isqrt_bounds(q);
        let r = 2 * s;
        assert(r * r <= n && n < (r + 1 + 1) * (r + 1 + 1)) by (nonlinear_arith)
            requires
                s * s <= q,
                q < (s + 1) * (s + 1),
                q == n / 4,
                r == 2 * s,
        ;
        if (r + 1) * (r + 1) <= n {
            assert(isqrt(n) == r + 1);
        } else {
            assert(isqrt(n) == r);
        }
    } else {
        assert(0 * 0 == 0 && (0 + 1) * (0 + 1) == 1) by (nonlinear_arith);
    }
}

/// Only one integer lies between the bounds that `lemma_isqrt_bounds` gives.
pub proof fn lemma_isqrt_unique(n: nat, r: nat)
    requires
        r * r <= n,
        n < (r + 1) * (r + 1),
    ensures
        isqrt(n) == r,
{
    lemma_isqrt_bounds(n);
    let s = isqrt(n);
    assert(s == r) by (nonlinear_arith)
        requires
            r * r <= n,
            n < (r + 1) * (r + 1),
            s * s <= n,
            n < (s + 1) * (s + 1),
    ;
}

/// Floor of the square root of `n`.
pub fn isqrt_u128(n: u128) -> (r: u128)
    ensures
        r == isqrt(n as nat),
        r * r <= n,
        r < 0x1_0000_0000_0000_0000,
    decreases n,
{
    if n == 0 {
        return 0;
    }
    let s = isqrt_u128(n / 4);
    proof {
        lemma_isqrt_bounds(n as nat);
        lemma_isqrt_bounds((n / 4) as nat);
        assert(2 * s < 0x1_0000_0000_0000_0000 && (2 * s) * (2 * s) <= n) by (nonlinear_arith)
            requires
                s * s <= n / 4,
                n <= u128::MAX,
        ;
    }
    let r = 2 * s;
    let rest = n - r * r;
    proof {
        assert(((r + 1) * (r + 1) <= n) == (2 * r + 1 <= rest)) by (nonlinear_arith)
            requires
                rest == n - r * r,
        ;
    }
    if 2 * r + 1 <= rest {
        proof {
            assert(r + 1 < 0x1_0000_0000_0000_0000) by (nonlinear_arith)
                requires
                    (r + 1) * (r + 1) <= n,
                    n <= u128::MAX,
            ;
        }
        r + 1
    } else {
        r
    }
}

/// A fixed-point number: `raw` billionths.
///
/// The most negative `raw` has no negation in `i64`; it is read as `-LIMIT`,
/// so that the numbers a scalar can stand for are symmetric around zero.
#[derive(Clone, Copy, Debug, PartialEq, Eq, Structural)]
pub struct Scalar {
    pub raw: i64,
}

impl Scalar {
    /// The number of raw units that this scalar stands for.
    pub open spec fn view(&self) -> int {
        if self.raw == i64::MIN {
            -(LIMIT as int)
        } else {
            self.raw as int
        }
    }

    /// The scalar nearest to `i` raw units.
    pub open spec fn of(i: int) -> Scalar {
        Scalar { raw: saturate(i) as i64 }
    }

    pub open spec fn spec_zero() -> Scalar {
        Scalar { raw: 0 }
    }

    pub open spec fn spec_one() -> Scalar {
        Scalar { raw: SCALE }
    }

    pub open spec fn spec_from_int(i: i64) -> Scalar {
        Scalar::of(i * SCALE)
    }

    pub open spec fn spec_from_usize(n: usize) -> Scalar {
        Scalar::of(n * SCALE)
    }

    pub open spec fn spec_from_ratio(n: i64, d: i64) -> Scalar {
        if d == 0 {
            Scalar::of(n * LIMIT)
        } else {
            Scalar::of(quotient(n * SCALE, d as int))
        }
    }

    pub open spec fn spec_neg(self) -> Scalar {
        Scalar::of(-self@)
    }

    pub open spec fn spec_abs(self) -> Scalar {
        Scalar::of(magnitude(self@))
    }

    pub open spec fn spec_add(self, other: Scalar) -> Scalar {
        Scalar::of(self@ + other@)
    }

    pub open spec fn spec_sub(self, other: Scalar) -> Scalar {
        Scalar::of(self@ - other@)
    }

    /// The product, rounded toward zero to a whole number of raw units.
    pub open spec fn spec_mul(self, other: Scalar) -> Scalar {
        Scalar::of(quotient(self@ * other@, SCALE as int))
    }

    /// The quotient, rounded toward zero. Dividing by zero gives the end of
    /// the range on the side of the dividend, and zero for zero.
    pub open spec fn spec_div(self, other: Scalar) -> Scalar {
        if other@ == 0 {
            Scalar::of(self@ * LIMIT)
        } else {
            Scalar::of(quotient(self@ * SCALE, other@))
        }
    }

    /// The square root, rounded down; zero for a negative number.
    pub open spec fn spec_sqrt(self) -> Scalar {
        if self@ <= 0 {
            Scalar::spec_zero()
        } else {
            Scalar::of(isqrt((self@ * SCALE) as nat) as int)
        }
    }

    /// `self` raised to the whole number `n`, by repeated squaring.
    pub open spec fn spec_powi(self, n: nat) -> Scalar
        decreases n,
    {
        if n == 0 {
            Scalar::spec_one()
        } else {
            let half = self.spec_powi(n / 2);
            let square = half.spec_mul(half);
            if n % 2 == 1 {
                square.spec_mul(self)
            } else {
                square
            }
        }
    }

    /// `self` raised to the fraction `f / SCALE`, where `0 <= f < SCALE`:
    /// the product of the successive square roots of `self` that the first
    /// `bits` binary digits of the fraction select.
    pub open spec fn spec_root_pow(self, f: int, bits: nat) -> Scalar
        decreases bits,
    {
        if bits == 0 {
            Scalar::spec_one()
        } else {
            let root = self.spec_sqrt();
            if 2 * f >= SCALE {
                root.spec_mul(root.spec_root_pow(2 * f - SCALE, (bits - 1) as nat))
            } else {
                root.spec_root_pow(2 * f, (bits - 1) as nat)
            }
        }
    }

    /// `self` raised to `e`: the whole part of the exponent by squaring, its
    /// fraction by square roots; a negative exponent gives the reciprocal.
    pub open spec fn spec_powf(self, e: Scalar) -> Scalar {
        let m = magnitude(e@);
        let power = self.spec_powi((m / SCALE as int) as nat).spec_mul(
            self.spec_root_pow(m % SCALE as int, EXPONENT_BITS as nat),
        );
        if e@ < 0 {
            Scalar::spec_one().spec_div(power)
        } else {
            power
        }
    }

    pub open spec fn spec_lt(self, other: Scalar) -> bool {
        self@ < other@
    }

    pub open spec fn spec_le(self, other: Scalar) -> bool {
        self@ <= other@
    }

    pub open spec fn spec_gt(self, other: Scalar) -> bool {
        self@ > other@
    }

    pub open spec fn spec_ge(self, other: Scalar) -> bool {
        self@ >= other@
    }

    pub open spec fn spec_min(self, other: Scalar) -> Scalar {
        if other@ < self@ {
            other
        } else {
            self
        }
    }

    pub open spec fn spec_max(self, other: Scalar) -> Scalar {
        if other@ > self@ {
            other
        } else {
            self
        }
    }

    /// `self` brought into `lo ..= hi`; `lo` wins where the bounds cross.
    pub open spec fn spec_clamp(self, lo: Scalar, hi: Scalar) -> Scalar {
        self.spec_min(hi).spec_max(lo)
    }

    /// The raw units of this scalar, never the most negative `i64`.
    pub fn units(self) -> (r: i64)
        ensures
            r == self@,
            -LIMIT <= r <= LIMIT,
    {
        if self.raw == i64::MIN {
            -LIMIT
        } else {
            self.raw
        }
    }

    /// The raw units of this scalar, widened for exact arithmetic.
    fn wide(self) -> (r: i128)
        ensures
            r == self@,
            -LIMIT <= r <= LIMIT,
    {
        self.units() as i128
    }

    /// The quotient `n / d` rounded toward zero.
    fn divide(n: i128, d: i128) -> (q: i128)
        requires
            d != 0,
            i128::MIN < n,
            i128::MIN < d,
        ensures
            q == quotient(n as int, d as int),
    {
        let an: i128 = if n < 0 { -n } else { n };
        let ad: i128 = if d < 0 { -d } else { d };
        let m: i128 = an / ad;
        if (n < 0) == (d < 0) {
            m
        } else {
            -m
        }
    }

    /// The scalar nearest to `v` raw units.
    pub fn saturating(v: i128) -> (r: Scalar)
        ensures
            r == Scalar::of(v as int),
    {
        if v > LIMIT as i128 {
            Scalar { raw: LIMIT }
        } else if v < -(LIMIT as i128) {
            Scalar { raw: -LIMIT }
        } else {
            Scalar { raw: v as i64 }
        }
    }

    #[verifier::when_used_as_spec(spec_zero)]
    pub fn zero() -> (r: Scalar)
        ensures
            r == Scalar::spec_zero(),
    {
        Scalar { raw: 0 }
    }

    #[verifier::when_used_as_spec(spec_one)]
    pub fn one() -> (r: Scalar)
        ensures
            r == Scalar::spec_one(),
    {
        Scalar { raw: SCALE }
    }

    /// The whole number `i`.
    #[verifier::when_used_as_spec(spec_from_int)]
    pub fn from_int(i: i64) -> (r: Scalar)
        ensures
            r == Scalar::spec_from_int(i),
    {
        let wide: i128 = i as i128;
        let scale: i128 = SCALE as i128;
        Scalar::saturating(wide * scale)
    }

    /// The count `n`.
    #[verifier::when_used_as_spec(spec_from_usize)]
    pub fn from_usize(n: usize) -> (r: Scalar)
        ensures
            r == Scalar::spec_from_usize(n),
    {
        let wide: i128 = n as i128;
        let scale: i128 = SCALE as i128;
        Scalar::saturating(wide * scale)
    }

    /// The fraction `n / d`, rounded toward zero.
    #[verifier::when_used_as_spec(spec_from_ratio)]
    pub fn from_ratio(n: i64, d: i64) -> (r: Scalar)
        ensures
            r == Scalar::spec_from_ratio(n, d),
    {
        let wide: i128 = n as i128;
        if d == 0 {
            let limit: i128 = LIMIT as i128;
            Scalar::saturating(wide * limit)
        } else {
            let scale: i128 = SCALE as i128;
            Scalar::saturating(Scalar::divide(wide * scale, d as i128))
        }
    }

    #[verifier::when_used_as_spec(spec_neg)]
    pub fn neg(self) -> (r: Scalar)
        ensures
            r == self.spec_neg(),
    {
        Scalar::saturating(-self.wide())
    }

    #[verifier::when_used_as_spec(spec_abs)]
    pub fn abs(self) -> (r: Scalar)
        ensures
            r == self.spec_abs(),
    {
        let u = self.units();
        if u < 0 {
            Scalar { raw: -u }
        } else {
            Scalar { raw: u }
        }
    }

    #[verifier::when_used_as_spec(spec_add)]
    pub fn add(self, other: Scalar) -> (r: Scalar)
        ensures
            r == self.spec_add(other),
    {
        Scalar::saturating(self.wide() + other.wide())
    }

    #[verifier::when_used_as_spec(spec_sub)]
    pub fn sub(self, other: Scalar) -> (r: Scalar)
        ensures
            r == self.spec_sub(other),
    {
        Scalar::saturating(self.wide() - other.wide())
    }

    #[verifier::when_used_as_spec(spec_mul)]
    pub fn mul(self, other: Scalar) -> (r: Scalar)
        ensures
            r == self.spec_mul(other),
    {
        let a = self.wide();
        let b = other.wide();
        assert(-(LIMIT * LIMIT) <= a * b <= LIMIT * LIMIT) by (nonlinear_arith)
            requires
                -LIMIT <= a <= LIMIT,
                -LIMIT <= b <= LIMIT,
        ;
        Scalar::saturating(Scalar::divide(a * b, SCALE as i128))
    }

    #[verifier::when_used_as_spec(spec_div)]
    pub fn div(self, other: Scalar) -> (r: Scalar)
        ensures
            r == self.spec_div(other),
    {
        let a = self.wide();
        let b = other.wide();
        if b == 0 {
            let limit: i128 = LIMIT as i128;
            Scalar::saturating(a * limit)
        } else {
            let scale: i128 = SCALE as i128;
            Scalar::saturating(Scalar::divide(a * scale, b))
        }
    }

    #[verifier::when_used_as_spec(spec_sqrt)]
    pub fn sqrt(self) -> (r: Scalar)
        ensures
            r == self.spec_sqrt(),
    {
        let a = self.units();
        if a <= 0 {
            Scalar::zero()
        } else {
            let wide: u128 = a as u128;
            let scale: u128 = SCALE as u128;
            let root = isqrt_u128(wide * scale);
            Scalar::saturating(root as i128)
        }
    }

    /// `self` raised to the whole number `n`.
    pub fn powi(self, n: u64) -> (r: Scalar)
        ensures
            r == self.spec_powi(n as nat),
        decreases n,
    {
        if n == 0 {
            Scalar::one()
        } else {
            let half = self.powi(n / 2);
            let square = half.mul(half);
            if n % 2 == 1 {
                square.mul(self)
            } else {
                square
            }
        }
    }

    /// `self` raised to the fraction `f / SCALE`, to `bits` binary digits.
    fn root_pow(self, f: i64, bits: u32) -> (r: Scalar)
        requires
            0 <= f < SCALE,
        ensures
            r == self.spec_root_pow(f as int, bits as nat),
        decreases bits,
    {
        if bits == 0 {
            Scalar::one()
        } else {
            let root = self.sqrt();
            if 2 * f >= SCALE {
                root.mul(root.root_pow(2 * f - SCALE, bits - 1))
            } else {
                root.root_pow(2 * f, bits - 1)
            }
        }
    }

    #[verifier::when_used_as_spec(spec_powf)]
    pub fn powf(self, e: Scalar) -> (r: Scalar)
        ensures
            r == self.spec_powf(e),
    {
        let m = e.abs().units();
        let power = self.powi((m / SCALE) as u64).mul(self.root_pow(m % SCALE, EXPONENT_BITS));
        if e.units() < 0 {
            Scalar::one().div(power)
        } else {
            power
        }
    }

    #[verifier::when_used_as_spec(spec_lt)]
    pub fn lt(self, other: Scalar) -> (b: bool)
        ensures
            b == self.spec_lt(other),
    {
        self.units() < other.units()
    }

    #[verifier::when_used_as_spec(spec_le)]
    pub fn le(self, other: Scalar) -> (b: bool)
        ensures
            b == self.spec_le(other),
    {
        self.units() <= other.units()
    }

    #[verifier::when_used_as_spec(spec_gt)]
    pub fn gt(self, other: Scalar) -> (b: bool)
        ensures
            b == self.spec_gt(other),
    {
        self.units() > other.units()
    }

    #[verifier::when_used_as_spec(spec_ge)]
    pub fn ge(self, other: Scalar) -> (b: bool)
        ensures
            b == self.spec_ge(other),
    {
        self.units() >= other.units()
    }

    #[verifier::when_used_as_spec(spec_min)]
    pub fn min(self, other: Scalar) -> (r: Scalar)
        ensures
            r == self.spec_min(other),
    {
        if other.units() < self.units() {
            other
        } else {
            self
        }
    }

    #[verifier::when_used_as_spec(spec_max)]
    pub fn max(self, other: Scalar) -> (r: Scalar)
        ensures
            r == self.spec_max(other),
    {
        if other.units() > self.units() {
            other
        } else {
            self
        }
    }

    #[verifier::when_used_as_spec(spec_clamp)]
    pub fn clamp(self, lo: Scalar, hi: Scalar) -> (r: Scalar)
        ensures
            r == self.spec_clamp(lo, hi),
    {
        self.min(hi).max(lo)
    }
}

/// Rounding toward zero commutes with negation.
pub proof fn lemma_quotient_neg(n: int, d: int)
    requires
        d > 0,
    ensures
        quotient(-n, d) == -quotient(n, d),
{
}

/// Dividing an exact multiple gives the factor back.
pub proof fn lemma_quotient_of_multiple(n: int, d: int)
    requires
        d > 0,
    ensures
        quotient(n * d, d) == n,
{
    if n >= 0 {
        assert(n * d >= 0 && (n * d) / d == n) by (nonlinear_arith)
            requires
                n >= 0,
                d > 0,
        ;
    } else {
        assert(n * d < 0 && (-(n * d)) / d == -n) by (nonlinear_arith)
            requires
                n < 0,
                d > 0,
        ;
    }
}

/// A product changes sign with either factor, and keeps it when both
/// factors change sign.
pub proof fn lemma_mul_neg(a: Scalar, b: Scalar)
    ensures
        a.spec_mul(b.spec_neg()) == a.spec_mul(b).spec_neg(),
        a.spec_neg().spec_mul(b) == a.spec_mul(b).spec_neg(),
        a.spec_neg().spec_mul(b.spec_neg()) == a.spec_mul(b),
{
    let p = a@ * b@;
    assert(a@ * (-b@) == -p && (-a@) * b@ == -p && (-a@) * (-b@) == p) by (nonlinear_arith)
        requires
            p == a@ * b@,
    ;
    lemma_quotient_neg(p, SCALE as int);
}

/// The sum of two negations is the negation of the sum.
pub proof fn lemma_add_neg(a: Scalar, b: Scalar)
    ensures
        a.spec_neg().spec_add(b.spec_neg()) == a.spec_add(b).spec_neg(),
{
}

/// Multiplying by one, by minus one and by zero is exact.
pub proof fn lemma_mul_by_units(a: Scalar)
    ensures
        a.spec_mul(Scalar::spec_one())@ == a@,
        Scalar::spec_one().spec_mul(a)@ == a@,
        a.spec_mul(Scalar::spec_one().spec_neg())@ == -a@,
        Scalar::spec_one().spec_neg().spec_mul(a)@ == -a@,
        a.spec_mul(Scalar::spec_zero())@ == 0,
        Scalar::spec_zero().spec_mul(a)@ == 0,
{
    lemma_quotient_of_multiple(a@, SCALE as int);
    lemma_quotient_of_multiple(-a@, SCALE as int);
    assert(SCALE * a@ == a@ * SCALE) by (nonlinear_arith);
    assert(a@ * (-SCALE) == (-a@) * SCALE) by (nonlinear_arith);
    assert((-SCALE) * a@ == (-a@) * SCALE) by (nonlinear_arith);
    assert(a@ * 0 == 0 && 0 * a@ == 0) by (nonlinear_arith);
}

/// Dividing by one and by minus one is exact, and dividing by zero gives
/// the end of the range on the side of the dividend.
pub proof fn lemma_div_by_units(a: Scalar)
    ensures
        a.spec_div(Scalar::spec_one())@ == a@,
        a.spec_div(Scalar::spec_one().spec_neg())@ == -a@,
        a@ > 0 ==> a.spec_div(Scalar::spec_zero())@ == LIMIT,
        a@ < 0 ==> a.spec_div(Scalar::spec_zero())@ == -LIMIT,
        a@ == 0 ==> a.spec_div(Scalar::spec_zero())@ == 0,
{
    lemma_quotient_of_multiple(a@, SCALE as int);
    assert(a@ > 0 ==> a@ * LIMIT >= LIMIT) by (nonlinear_arith);
    assert(a@ < 0 ==> a@ * LIMIT <= -LIMIT) by (nonlinear_arith);
    assert(a@ == 0 ==> a@ * LIMIT == 0) by (nonlinear_arith);
}

} // verus!

//! Three-dimensional vectors of fixed-point components.

use vstd::prelude::*;
use crate::fixed::{fx_add, fx_div, fx_half, fx_mul, fx_neg, in_range, Fixed, SCALE};

verus! {

/// Squared length, in raw units squared, below which a vector counts as zero:
/// one hundred-thousandth of a square unit.
pub const APPROX_ZERO_SQUARED: i64 = 10_000_000;

/// A vector of three mathematical integers: the view of a [`Vec3`].
pub struct Vector {
    pub x: int,
    pub y: int,
    pub z: int,
}

/// The vector of no length.
pub open spec fn v_zero() -> Vector {
    Vector { x: 0, y: 0, z: 0 }
}

/// Sum by component.
pub open spec fn v_add(a: Vector, b: Vector) -> Vector {
    Vector { x: fx_add(a.x, b.x), y: fx_add(a.y, b.y), z: fx_add(a.z, b.z) }
}

/// Negation by component.
pub open spec fn v_neg(a: Vector) -> Vector {
    Vector { x: fx_neg(a.x), y: fx_neg(a.y), z: fx_neg(a.z) }
}

/// Each component multiplied by the scalar `s`.
pub open spec fn v_scale(a: Vector, s: int) -> Vector {
    Vector { x: fx_mul(a.x, s), y: fx_mul(a.y, s), z: fx_mul(a.z, s) }
}

/// Each component divided by the scalar `s`.
pub open spec fn v_div(a: Vector, s: int) -> Vector
    recommends
        s != 0,
{
    Vector { x: fx_div(a.x, s), y: fx_div(a.y, s), z: fx_div(a.z, s) }
}

/// Half of each component.
pub open spec fn v_half(a: Vector) -> Vector {
    Vector { x: fx_half(a.x), y: fx_half(a.y), z: fx_half(a.z) }
}

/// The vector with its vertical component removed.
pub open spec fn v_horizontal(a: Vector) -> Vector {
    Vector { x: a.x, y: 0, z: a.z }
}

/// Exact dot product, in raw units squared.
pub open spec fn v_dot(a: Vector, b: Vector) -> int {
    a.x * b.x + a.y * b.y + a.z * b.z
}

/// True when the vector is too short to give a direction.
pub open spec fn v_approx_zero(a: Vector) -> bool {
    v_dot(a, a) < APPROX_ZERO_SQUARED
}

/// True when the exact sum of `a` and `b` needs no clamping.
pub open spec fn v_sum_fits(a: Vector, b: Vector) -> bool {
    in_range(a.x + b.x) && in_range(a.y + b.y) && in_range(a.z + b.z)
}

/// A vector of three fixed-point components.
#[derive(Clone, Copy, Debug, PartialEq, Eq, Structural)]
pub struct Vec3 {
    pub x: Fixed,
    pub y: Fixed,
    pub z: Fixed,
}

impl View for Vec3 {
    type V = Vector;

    open spec fn view(&self) -> Vector {
        Vector { x: self.x@, y: self.y@, z: self.z@ }
    }
}

/// View of an optional vector.
pub open spec fn view_opt(v: Option<Vec3>) -> Option<Vector> {
    match v {
        Some(v) => Some(v@),
        None => None,
    }
}

/// True when `c` alone makes a vector too long to count as zero.
fn exceeds_approx_zero(c: i64) -> (r: bool)
    ensures
        r ==> c * c >= APPROX_ZERO_SQUARED,
        !r ==> c * c <= 3162 * 3162,
{
    let r = c > 3162 || c < -3162;
    proof {
        if c > 3162 {
            assert(c * c >= 3163 * 3163) by (nonlinear_arith)
                requires
                    c >= 3163,
            ;
        } else if c < -3162 {
            assert(c * c >= 3163 * 3163) by (nonlinear_arith)
                requires
                    c <= -3163,
            ;
        } else {
            assert(c * c <= 3162 * 3162) by (nonlinear_arith)
                requires
                    -3162 <= c <= 3162,
            ;
        }
    }
    r
}

impl Vec3 {
    /// The vector of the three components.
    pub fn new(x: Fixed, y: Fixed, z: Fixed) -> (r: Vec3)
        ensures
            r@ == (Vector { x: x@, y: y@, z: z@ }),
    {
        Vec3 { x, y, z }
    }

    /// The vector of no length.
    pub fn zero() -> (r: Vec3)
        ensures
            r@ == v_zero(),
    {
        Vec3 { x: Fixed::zero(), y: Fixed::zero(), z: Fixed::zero() }
    }

    /// The unit vector along the vertical axis.
    pub fn unit_y() -> (r: Vec3)
        ensures
            r@ == (Vector { x: 0, y: SCALE as int, z: 0 }),
    {
        Vec3 { x: Fixed::zero(), y: Fixed::one(), z: Fixed::zero() }
    }

    /// Sum by component.
    pub fn plus(self, rhs: Vec3) -> (r: Vec3)
        ensures
            r@ == v_add(self@, rhs@),
    {
        Vec3 { x: self.x.plus(rhs.x), y: self.y.plus(rhs.y), z: self.z.plus(rhs.z) }
    }

    /// Negation by component.
    pub fn negated(self) -> (r: Vec3)
        ensures
            r@ == v_neg(self@),
    {
        Vec3 { x: self.x.negated(), y: self.y.negated(), z: self.z.negated() }
    }

    /// Each component multiplied by `s`.
    pub fn scaled(self, s: Fixed) -> (r: Vec3)
        ensures
            r@ == v_scale(self@, s@),
    {
        Vec3 { x: self.x.times(s), y: self.y.times(s), z: self.z.times(s) }
    }

    /// Each component divided by `s`.
    pub fn divided(self, s: Fixed) -> (r: Vec3)
        requires
            s@ != 0,
        ensures
            r@ == v_div(self@, s@),
    {
        Vec3 { x: self.x.over(s), y: self.y.over(s), z: self.z.over(s) }
    }

    /// Half of each component.
    pub fn halved(self) -> (r: Vec3)
        ensures
            r@ == v_half(self@),
    {
        Vec3 { x: self.x.halved(), y: self.y.halved(), z: self.z.halved() }
    }

    /// The vector with its vertical component set to zero.
    pub fn x0z(self) -> (r: Vec3)
        ensures
            r@ == v_horizontal(self@),
    {
        Vec3 { x: self.x, y: Fixed::zero(), z: self.z }
    }

    /// Whether the squared length is below [`APPROX_ZERO_SQUARED`].
    pub fn is_approx_zero(self) -> (r: bool)
        ensures
            r == v_approx_zero(self@),
    {
        let x: i64 = self.x.raw();
        let y: i64 = self.y.raw();
        let z: i64 = self.z.raw();
        proof {
            assert(x * x >= 0 && y * y >= 0 && z * z >= 0) by (nonlinear_arith);
        }
        if exceeds_approx_zero(x) || exceeds_approx_zero(y) || exceeds_approx_zero(z) {
            return false;
        }
        x * x + y * y + z * z < APPROX_ZERO_SQUARED
    }
}

} // verus!

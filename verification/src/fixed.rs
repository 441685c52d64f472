//! Fixed-point scalars: signed 64-bit counts of millionths, with saturating arithmetic.
//!
//! Every quantity of the simulation (seconds, metres, kilograms, newtons) is a
//! [`Fixed`]. Its view is the raw count as a mathematical integer, so a view `v`
//! stands for the real number `v / SCALE`. Results that leave the raw range are
//! clamped to its nearest end; quotients are rounded toward zero, so that
//! negating the operands negates the result.

use vstd::prelude::*;

verus! {

/// Number of raw units in one whole unit.
pub const SCALE: i64 = 1_000_000;

/// Clamps a mathematical integer into the range of raw values.
pub open spec fn saturate(x: int) -> int {
    if x < i64::MIN {
        i64::MIN as int
    } else if x > i64::MAX {
        i64::MAX as int
    } else {
        x
    }
}

/// True when `x` is a raw value as it stands, so that `saturate` leaves it alone.
pub open spec fn in_range(x: int) -> bool {
    i64::MIN <= x <= i64::MAX
}

/// Quotient of `a` by `b`, rounded toward zero.
pub open spec fn quotient(a: int, b: int) -> int
    recommends
        b != 0,
{
    if a >= 0 && b > 0 {
        a / b
    } else if a < 0 && b > 0 {
        -((-a) / b)
    } else if a >= 0 {
        -(a / (-b))
    } else {
        (-a) / (-b)
    }
}

/// Sum of two raw values.
pub open spec fn fx_add(a: int, b: int) -> int {
    saturate(a + b)
}

/// Difference of two raw values.
pub open spec fn fx_sub(a: int, b: int) -> int {
    saturate(a - b)
}

/// Negation of a raw value.
pub open spec fn fx_neg(a: int) -> int {
    saturate(-a)
}

/// Product of two raw values, scaled back to raw units.
pub open spec fn fx_mul(a: int, b: int) -> int {
    saturate(quotient(a * b, SCALE as int))
}

/// Ratio of two raw values, scaled back to raw units.
pub open spec fn fx_div(a: int, b: int) -> int
    recommends
        b != 0,
{
    saturate(quotient(a * SCALE, b))
}

/// Half of a raw value.
pub open spec fn fx_half(a: int) -> int {
    quotient(a, 2)
}

/// A signed fixed-point number with six decimal places.
#[derive(Clone, Copy, Debug, PartialEq, Eq, Structural)]
pub struct Fixed {
    pub raw: i64,
}

impl View for Fixed {
    type V = int;

    open spec fn view(&self) -> int {
        self.raw as int
    }
}

/// Brings a wide intermediate result back into the raw range.
fn clamp_wide(x: i128) -> (r: i64)
    ensures
        r as int == saturate(x as int),
{
    if x < i64::MIN as i128 {
        i64::MIN
    } else if x > i64::MAX as i128 {
        i64::MAX
    } else {
        x as i64
    }
}

/// Divides with a positive divisor only, so that the rounding is toward zero
/// whatever the signs are.
fn div_wide(a: i128, b: i128) -> (r: i128)
    requires
        b != 0,
        i128::MIN < a,
        i128::MIN < b,
    ensures
        r as int == quotient(a as int, b as int),
{
    if b > 0 {
        a / b
    } else {
        -(a / (-b))
    }
}

impl Fixed {
    /// The number made of `raw` millionths.
    pub fn from_raw(raw: i64) -> (r: Fixed)
        ensures
            r@ == raw,
    {
        Fixed { raw }
    }

    /// The count of millionths.
    pub fn raw(self) -> (r: i64)
        ensures
            r == self@,
    {
        self.raw
    }

    /// The whole number `units`, clamped to the representable range.
    pub fn from_int(units: i64) -> (r: Fixed)
        ensures
            r@ == saturate(units * SCALE),
    {
        let wide: i128 = units as i128;
        Fixed { raw: clamp_wide(wide * (SCALE as i128)) }
    }

    /// The number zero.
    pub fn zero() -> (r: Fixed)
        ensures
            r@ == 0,
    {
        Fixed { raw: 0 }
    }

    /// The number one.
    pub fn one() -> (r: Fixed)
        ensures
            r@ == SCALE,
    {
        Fixed { raw: SCALE }
    }

    /// Sum, clamped to the representable range.
    pub fn plus(self, rhs: Fixed) -> (r: Fixed)
        ensures
            r@ == fx_add(self@, rhs@),
    {
        Fixed { raw: clamp_wide(self.raw as i128 + rhs.raw as i128) }
    }

    /// Difference, clamped to the representable range.
    pub fn minus(self, rhs: Fixed) -> (r: Fixed)
        ensures
            r@ == fx_sub(self@, rhs@),
    {
        Fixed { raw: clamp_wide(self.raw as i128 - rhs.raw as i128) }
    }

    /// Negation; the lowest number, which has no opposite, gives the highest.
    pub fn negated(self) -> (r: Fixed)
        ensures
            r@ == fx_neg(self@),
    {
        Fixed { raw: clamp_wide(-(self.raw as i128)) }
    }

    /// Product, rounded toward zero and clamped to the representable range.
    pub fn times(self, rhs: Fixed) -> (r: Fixed)
        ensures
            r@ == fx_mul(self@, rhs@),
    {
        let a: i128 = self.raw as i128;
        let b: i128 = rhs.raw as i128;
        assert(-0x4000_0000_0000_0000_0000_0000_0000_0000 <= a * b
            <= 0x4000_0000_0000_0000_0000_0000_0000_0000) by (nonlinear_arith)
            requires
                -0x8000_0000_0000_0000 <= a <= 0x8000_0000_0000_0000,
                -0x8000_0000_0000_0000 <= b <= 0x8000_0000_0000_0000,
        ;
        Fixed { raw: clamp_wide(div_wide(a * b, SCALE as i128)) }
    }

    /// Ratio, rounded toward zero and clamped to the representable range.
    pub fn over(self, rhs: Fixed) -> (r: Fixed)
        requires
            rhs@ != 0,
        ensures
            r@ == fx_div(self@, rhs@),
    {
        let a: i128 = self.raw as i128;
        Fixed { raw: clamp_wide(div_wide(a * (SCALE as i128), rhs.raw as i128)) }
    }

    /// Half, rounded toward zero.
    pub fn halved(self) -> (r: Fixed)
        ensures
            r@ == fx_half(self@),
    {
        let q: i128 = div_wide(self.raw as i128, 2);
        Fixed { raw: clamp_wide(q) }
    }
}

/// A quotient of a dividend that is not negative by a positive divisor is
/// the largest integer whose product with the divisor does not pass the dividend.
pub proof fn lemma_quotient_bounds(a: int, b: int)
    requires
        a >= 0,
        b > 0,
    ensures
        quotient(a, b) >= 0,
        quotient(a, b) * b <= a < quotient(a, b) * b + b,
{
    let q = a / b;
    assert(q >= 0 && q * b <= a < q * b + b) by (nonlinear_arith)
        requires
            a >= 0,
            b > 0,
            q == a / b,
    ;
}

/// Rounding toward zero commutes with negation of the dividend.
pub proof fn lemma_quotient_negated(a: int, b: int)
    requires
        b > 0,
    ensures
        quotient(-a, b) == -quotient(a, b),
{
    if a == 0 {
        assert(0int / b == 0) by (nonlinear_arith)
            requires
                b > 0,
        ;
    }
}

/// A multiple of the divisor is divided without remainder.
pub proof fn lemma_quotient_of_multiple(q: int, b: int)
    requires
        b > 0,
    ensures
        quotient(q * b, b) == q,
{
    if q >= 0 {
        assert(q * b >= 0 && (q * b) / b == q) by (nonlinear_arith)
            requires
                q >= 0,
                b > 0,
        ;
    } else {
        assert(q * b < 0 && (-(q * b)) / b == -q) by (nonlinear_arith)
            requires
                q < 0,
                b > 0,
        ;
    }
}

/// A product that needs no clamping is off by less than one raw unit, and
/// never further from zero than the exact product.
pub proof fn product_error_is_below_one_unit(a: int, b: int)
    requires
        in_range(quotient(a * b, SCALE as int)),
    ensures
        a * b >= 0 ==> 0 <= a * b - fx_mul(a, b) * SCALE < SCALE,
        a * b <= 0 ==> 0 <= fx_mul(a, b) * SCALE - a * b < SCALE,
{
    if a * b >= 0 {
        lemma_quotient_bounds(a * b, SCALE as int);
    }
    if a * b <= 0 {
        lemma_quotient_bounds(-(a * b), SCALE as int);
        lemma_quotient_negated(a * b, SCALE as int);
    }
}

/// A ratio by a positive divisor that needs no clamping, multiplied back by
/// the divisor, is off by less than the divisor, and never further from zero
/// than the dividend.
pub proof fn ratio_error_is_below_the_divisor(a: int, b: int)
    requires
        b > 0,
        in_range(quotient(a * SCALE, b)),
    ensures
        a >= 0 ==> 0 <= a * SCALE - fx_div(a, b) * b < b,
        a <= 0 ==> 0 <= fx_div(a, b) * b - a * SCALE < b,
{
    if a >= 0 {
        lemma_quotient_bounds(a * SCALE, b);
    }
    if a <= 0 {
        lemma_quotient_bounds(-(a * SCALE), b);
        lemma_quotient_negated(a * SCALE, b);
        let q = quotient(-(a * SCALE), b);
        assert((-q) * b == -(q * b)) by (nonlinear_arith);
    }
}

} // verus!

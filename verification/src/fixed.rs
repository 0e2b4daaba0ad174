//! Fixed-point scalars.
//!
//! Every fractional quantity of the shading core (a coordinate, a matrix
//! entry, a lighting intensity, a noise sample) is an `i32` that counts
//! hundred-thousandths: the real number `v` is stored as `v * ONE`, rounded
//! towards negative infinity. Intermediate results are exact integers in a
//! wider type; a result that leaves the `i32` range is clamped to it.

use vstd::prelude::*;

verus! {

/// The fixed-point representation of the real number one.
pub const ONE: i32 = 100_000;

/// `v` limited to the closed interval from `low` to `high`.
pub open spec fn spec_clamp(v: int, low: int, high: int) -> int {
    if v < low {
        low
    } else if v > high {
        high
    } else {
        v
    }
}

/// `v` limited to the range of a fixed-point scalar.
pub open spec fn spec_saturate(v: int) -> i32 {
    spec_clamp(v, i32::MIN as int, i32::MAX as int) as i32
}

/// The greatest integer not above the rational `n / d`, for `d != 0`.
pub open spec fn spec_floor_div(n: int, d: int) -> int
    recommends
        d != 0,
{
    if d > 0 {
        n / d
    } else {
        (-n) / (-d)
    }
}

/// `spec_floor_div` is the floor of the quotient: it is the one integer `q`
/// for which `n / d` lies from `q` up to, but not including, `q + 1`.
pub proof fn lemma_floor_div_bounds(n: int, d: int)
    requires
        d != 0,
    ensures
        d > 0 ==> spec_floor_div(n, d) * d <= n < (spec_floor_div(n, d) + 1) * d,
        d < 0 ==> spec_floor_div(n, d) * d >= n > (spec_floor_div(n, d) + 1) * d,
{
    if d > 0 {
        let q = n / d;
        assert(q * d <= n < (q + 1) * d) by (nonlinear_arith)
            requires
                d > 0,
                q == n / d,
        ;
    } else {
        let q = (-n) / (-d);
        assert(q * d >= n > (q + 1) * d) by (nonlinear_arith)
            requires
                d < 0,
                q == (-n) / (-d),
        ;
    }
}

/// The fixed-point product of two scalars given as their exact raw product:
/// the raw product divided by `ONE`, rounded down and clamped.
pub open spec fn spec_rescale(raw_product: int) -> i32 {
    spec_saturate(raw_product / (ONE as int))
}

/// The fixed-point quotient `n / d`. Division by zero does not fail: it
/// clamps to the end of the range on the side of the numerator's sign, and
/// gives zero for a zero numerator.
pub open spec fn spec_quotient(n: int, d: int) -> i32 {
    if d == 0 {
        if n > 0 {
            i32::MAX
        } else if n < 0 {
            i32::MIN
        } else {
            0i32
        }
    } else {
        spec_saturate(spec_floor_div(n * ONE, d))
    }
}

/// Clamps a wide intermediate result to the range of a scalar.
pub fn saturate(v: i128) -> (r: i32)
    ensures
        r == spec_saturate(v as int),
{
    if v < i32::MIN as i128 {
        i32::MIN
    } else if v > i32::MAX as i128 {
        i32::MAX
    } else {
        v as i32
    }
}

/// The exact product of two scalars' raw values.
pub fn product(a: i32, b: i32) -> (p: i64)
    ensures
        p == (a as int) * (b as int),
        -0x4000_0000_0000_0000 < p <= 0x4000_0000_0000_0000,
{
    proof {
        assert(-0x4000_0000_0000_0000 < (a as int) * (b as int) <= 0x4000_0000_0000_0000)
            by (nonlinear_arith)
            requires
                -0x8000_0000 <= a <= 0x7fff_ffff,
                -0x8000_0000 <= b <= 0x7fff_ffff,
        ;
    }
    (a as i64) * (b as i64)
}

/// Brings an exact raw product of two scalars back to the scalar's unit.
pub fn rescale(raw_product: i128) -> (r: i32)
    ensures
        r == spec_rescale(raw_product as int),
{
    match raw_product.checked_div_euclid(100_000) {
        Some(q) => saturate(q),
        None => 0,
    }
}

/// Floor division of wide integers by a divisor that is not zero.
pub fn floor_div(n: i128, d: i128) -> (q: i128)
    requires
        d != 0,
        i128::MIN < n,
        i128::MIN < d,
    ensures
        q == spec_floor_div(n as int, d as int),
{
    let (num, den): (i128, i128) = if d > 0 {
        (n, d)
    } else {
        (-n, -d)
    };
    proof {
        let q = (num as int) / (den as int);
        assert(-0x7fff_ffff_ffff_ffff_ffff_ffff_ffff_ffff <= q
            <= 0x7fff_ffff_ffff_ffff_ffff_ffff_ffff_ffff) by (nonlinear_arith)
            requires
                q == (num as int) / (den as int),
                den >= 1,
                -0x7fff_ffff_ffff_ffff_ffff_ffff_ffff_ffff <= num
                    <= 0x7fff_ffff_ffff_ffff_ffff_ffff_ffff_ffff,
        ;
    }
    match num.checked_div_euclid(den) {
        Some(q) => q,
        None => 0,
    }
}

/// Fixed-point division of two raw values, with the zero-divisor policy of
/// `spec_quotient`.
pub fn quotient(n: i32, d: i32) -> (q: i32)
    ensures
        q == spec_quotient(n as int, d as int),
{
    if d == 0 {
        if n > 0 {
            i32::MAX
        } else if n < 0 {
            i32::MIN
        } else {
            0
        }
    } else {
        let scaled: i128 = (n as i128) * 100_000;
        saturate(floor_div(scaled, d as i128))
    }
}

} // verus!

//! Fixed-point scalars.
//!
//! Every real-valued quantity of the simulation (lengths in pixels, speeds in
//! pixels per second, angles in radians, durations in seconds, dimensionless
//! factors) is stored as an `i64` that counts `1 / UNIT` of its unit.
//! Arithmetic saturates at the limits of `i64` instead of overflowing, and
//! products and quotients round toward zero.
use vstd::prelude::*;

verus! {

/// How many steps of a stored scalar make one whole unit.
pub const UNIT: i64 = 600_000;

/// Half a turn, in radians.
pub const PI: i64 = 1_884_956;

/// A whole turn, in radians.
pub const TAU: i64 = 2 * PI;

/// Quotient of `a` by a positive `b`, rounded toward zero.
pub open spec fn trunc_div(a: int, b: int) -> int
    recommends
        b > 0,
{
    if a >= 0 {
        a / b
    } else {
        -((-a) / b)
    }
}

/// What `trunc_div` leaves over; it has the sign of `a`.
pub open spec fn trunc_rem(a: int, b: int) -> int
    recommends
        b > 0,
{
    a - b * trunc_div(a, b)
}

/// The value of `i64` nearest to `v`.
pub open spec fn saturate(v: int) -> int {
    if v < i64::MIN {
        i64::MIN as int
    } else if v > i64::MAX {
        i64::MAX as int
    } else {
        v
    }
}

pub open spec fn spec_sat_add(a: i64, b: i64) -> i64 {
    saturate(a + b) as i64
}

pub open spec fn spec_sat_sub(a: i64, b: i64) -> i64 {
    saturate(a - b) as i64
}

pub open spec fn spec_sat_neg(a: i64) -> i64 {
    saturate(-a) as i64
}

pub open spec fn spec_sat_abs(a: i64) -> i64 {
    if a >= 0 {
        a
    } else {
        saturate(-a) as i64
    }
}

/// Product of two scalars that count in `1 / UNIT`.
pub open spec fn spec_sat_mul(a: i64, b: i64) -> i64 {
    saturate(trunc_div(a * b, UNIT as int)) as i64
}

/// Quotient of two scalars that count in `1 / UNIT`; `b` is not zero.
pub open spec fn spec_sat_div(a: i64, b: i64) -> i64
    recommends
        b != 0,
{
    if b > 0 {
        saturate(trunc_div(a * UNIT, b as int)) as i64
    } else {
        saturate(trunc_div(-(a * UNIT), -(b as int))) as i64
    }
}

/// `a * n / d` for plain integers `n` and `d > 0`.
pub open spec fn spec_sat_ratio(a: i64, n: i64, d: i64) -> i64
    recommends
        d > 0,
{
    saturate(trunc_div(a * n, d as int)) as i64
}

/// The value of `i64` nearest to `v`.
pub fn narrow(v: i128) -> (r: i64)
    ensures
        r == saturate(v as int),
{
    if v < i64::MIN as i128 {
        i64::MIN
    } else if v > i64::MAX as i128 {
        i64::MAX
    } else {
        v as i64
    }
}

#[verifier::when_used_as_spec(spec_sat_add)]
pub fn sat_add(a: i64, b: i64) -> (r: i64)
    ensures
        r == spec_sat_add(a, b),
{
    narrow(a as i128 + b as i128)
}

#[verifier::when_used_as_spec(spec_sat_sub)]
pub fn sat_sub(a: i64, b: i64) -> (r: i64)
    ensures
        r == spec_sat_sub(a, b),
{
    narrow(a as i128 - b as i128)
}

#[verifier::when_used_as_spec(spec_sat_neg)]
pub fn sat_neg(a: i64) -> (r: i64)
    ensures
        r == spec_sat_neg(a),
{
    narrow(-(a as i128))
}

#[verifier::when_used_as_spec(spec_sat_abs)]
pub fn sat_abs(a: i64) -> (r: i64)
    ensures
        r == spec_sat_abs(a),
{
    if a >= 0 {
        a
    } else {
        sat_neg(a)
    }
}

proof fn lemma_product_bound(a: int, b: int)
    requires
        -0x8000_0000_0000_0000 <= a <= 0x7fff_ffff_ffff_ffff,
        -0x8000_0000_0000_0000 <= b <= 0x7fff_ffff_ffff_ffff,
    ensures
        -0x4000_0000_0000_0000_0000_0000_0000_0000 <= a * b
            <= 0x4000_0000_0000_0000_0000_0000_0000_0000,
{
    assert(-0x4000_0000_0000_0000_0000_0000_0000_0000 <= a * b
        <= 0x4000_0000_0000_0000_0000_0000_0000_0000) by (nonlinear_arith)
        requires
            -0x8000_0000_0000_0000 <= a <= 0x7fff_ffff_ffff_ffff,
            -0x8000_0000_0000_0000 <= b <= 0x7fff_ffff_ffff_ffff,
    ;
}

fn wide_product(a: i64, b: i64) -> (p: i128)
    ensures
        p == a * b,
        -0x4000_0000_0000_0000_0000_0000_0000_0000 <= p
            <= 0x4000_0000_0000_0000_0000_0000_0000_0000,
{
    proof {
        lemma_product_bound(a as int, b as int);
    }
    (a as i128) * (b as i128)
}

#[verifier::when_used_as_spec(spec_sat_mul)]
pub fn sat_mul(a: i64, b: i64) -> (r: i64)
    ensures
        r == spec_sat_mul(a, b),
{
    let p: i128 = wide_product(a, b);
    narrow(p / (UNIT as i128))
}

#[verifier::when_used_as_spec(spec_sat_div)]
pub fn sat_div(a: i64, b: i64) -> (r: i64)
    requires
        b != 0,
    ensures
        r == spec_sat_div(a, b),
{
    let p: i128 = wide_product(a, UNIT);
    if b > 0 {
        narrow(p / (b as i128))
    } else {
        narrow((-p) / (-(b as i128)))
    }
}

#[verifier::when_used_as_spec(spec_sat_ratio)]
pub fn sat_ratio(a: i64, n: i64, d: i64) -> (r: i64)
    requires
        d > 0,
    ensures
        r == spec_sat_ratio(a, n, d),
{
    let p: i128 = wide_product(a, n);
    narrow(p / (d as i128))
}

} // verus!

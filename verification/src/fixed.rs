//! Fixed-point scalar arithmetic.
//!
//! Every scalar of the renderer is a signed 64-bit integer holding the value
//! times `SCALE` (a Q47.16 fixed-point number). All operations state their
//! result exactly, over mathematical integers; rounding is truncation toward
//! zero, as in Rust's `/` on signed integers.

use vstd::prelude::*;

verus! {

/// The fixed-point scale: a scalar of value `v` is stored as `v * SCALE`.
pub const SCALE: i64 = 65536;

/// The raw representation of the scalar one.
pub const FX_ONE: i64 = 65536;

/// Absolute value over mathematical integers.
pub open spec fn abs_int(a: int) -> int {
    if a >= 0 {
        a
    } else {
        -a
    }
}

/// Truncating division (rounds toward zero): the semantics of Rust's `/`
/// on signed integers, expressed over mathematical integers.
pub open spec fn tdiv(a: int, b: int) -> int {
    if a >= 0 {
        a / b
    } else {
        -((-a) / b)
    }
}

/// Raw result of multiplying two fixed-point scalars.
pub open spec fn fx_mul_spec(a: int, b: int) -> int {
    tdiv(a * b, SCALE as int)
}

/// Raw result of dividing one fixed-point scalar by another.
pub open spec fn fx_div_spec(a: int, b: int) -> int {
    tdiv(a * (SCALE as int), b)
}

/// Raw result of the reciprocal of a fixed-point scalar.
pub open spec fn fx_recip_spec(a: int) -> int {
    fx_div_spec(FX_ONE as int, a)
}

/// Whether a mathematical integer fits in the raw scalar type.
pub open spec fn fits_i64(a: int) -> bool {
    i64::MIN <= a <= i64::MAX
}

/// Converts a small integer to the scalar representing it.
pub fn fx_from_int(v: i32) -> (r: i64)
    ensures
        r as int == v as int * SCALE as int,
{
    (v as i64) * SCALE
}

/// Fixed-point product.
pub fn fx_mul(a: i64, b: i64) -> (r: i64)
    requires
        fits_i64(fx_mul_spec(a as int, b as int)),
    ensures
        r as int == fx_mul_spec(a as int, b as int),
{
    proof {
        lemma_mul_product_bound(a as int, b as int);
    }
    let w: i128 = (a as i128) * (b as i128);
    let q: i128 = w / (SCALE as i128);
    q as i64
}

/// Fixed-point quotient.
pub fn fx_div(a: i64, b: i64) -> (r: i64)
    requires
        b != 0,
        fits_i64(fx_div_spec(a as int, b as int)),
    ensures
        r as int == fx_div_spec(a as int, b as int),
{
    proof {
        lemma_mul_product_bound(a as int, SCALE as int);
    }
    let w: i128 = (a as i128) * (SCALE as i128);
    let q: i128 = w / (b as i128);
    q as i64
}

/// Fixed-point reciprocal.
pub fn fx_recip(a: i64) -> (r: i64)
    requires
        a != 0,
        fits_i64(fx_recip_spec(a as int)),
    ensures
        r as int == fx_recip_spec(a as int),
{
    fx_div(FX_ONE, a)
}


/// Rounds a fixed-point scalar down to whole units: the floor of the value,
/// as a plain integer (the `/` here is Euclidean division, which rounds
/// toward negative infinity for this positive divisor).
pub fn fx_floor(a: i64) -> (r: i64)
    ensures
        r as int == a as int / (SCALE as int),
{
    if a >= 0 {
        a / SCALE
    } else {
        let q = -((-(a as i128) + (SCALE as i128) - 1) / (SCALE as i128));
        proof {
            assert(-((-(a as int) + (SCALE as int) - 1) / (SCALE as int)) == a as int / (
            SCALE as int)) by (nonlinear_arith)
                requires
                    a < 0,
            ;
            lemma_tdiv_abs(-(a as int) + (SCALE as int) - 1, SCALE as int, 9223372036854841343);
        }
        q as i64
    }
}

/// The product of two 64-bit integers fits in 128 bits.
proof fn lemma_mul_product_bound(a: int, b: int)
    by (nonlinear_arith)
    requires
        i64::MIN <= a <= i64::MAX,
        i64::MIN <= b <= i64::MAX,
    ensures
        i128::MIN <= a * b <= i128::MAX,
{
}

/// The magnitude of a product is bounded by the product of magnitude bounds.
pub proof fn lemma_abs_mul(a: int, b: int, bound_a: int, bound_b: int)
    by (nonlinear_arith)
    requires
        abs_int(a) <= bound_a,
        abs_int(b) <= bound_b,
    ensures
        abs_int(a * b) <= bound_a * bound_b,
{
}

/// Truncating division by a positive divisor shrinks magnitudes.
pub proof fn lemma_tdiv_abs(a: int, b: int, bound: int)
    by (nonlinear_arith)
    requires
        b > 0,
        abs_int(a) <= bound,
    ensures
        abs_int(tdiv(a, b)) <= bound / b,
        abs_int(tdiv(a, b)) <= abs_int(a),
{
}

/// Truncating division by any nonzero divisor does not grow magnitudes.
pub proof fn lemma_tdiv_abs_any(a: int, b: int, bound: int)
    by (nonlinear_arith)
    requires
        b != 0,
        abs_int(a) <= bound,
    ensures
        abs_int(tdiv(a, b)) <= bound,
{
}

/// A fixed-point product of bounded scalars is bounded.
pub proof fn lemma_fx_mul_abs(a: int, b: int, bound_a: int, bound_b: int)
    requires
        abs_int(a) <= bound_a,
        abs_int(b) <= bound_b,
    ensures
        abs_int(fx_mul_spec(a, b)) <= (bound_a * bound_b) / (SCALE as int),
{
    lemma_abs_mul(a, b, bound_a, bound_b);
    lemma_tdiv_abs(a * b, SCALE as int, bound_a * bound_b);
}

} // verus!

//! Points of dimension 2, 3 and 4 over fixed-point scalars, with the
//! homogeneous/Euclidean conversions used by the projection stage.

use vstd::prelude::*;
use crate::fixed::{
    abs_int, fits_i64, fx_div_spec, fx_mul_spec, fx_div, fx_mul, fx_recip, fx_recip_spec, tdiv,
    FX_ONE, SCALE,
};

verus! {

/// A 2-dimensional point (screen plane).
#[derive(Clone, Copy, PartialEq, Eq, Structural, Debug)]
pub struct Point2 {
    pub x: i64,
    pub y: i64,
}

/// A 3-dimensional point (world or camera space).
#[derive(Clone, Copy, PartialEq, Eq, Structural, Debug)]
pub struct Point3 {
    pub x: i64,
    pub y: i64,
    pub z: i64,
}

/// A 4-dimensional point (homogeneous coordinates).
#[derive(Clone, Copy, PartialEq, Eq, Structural, Debug)]
pub struct Point4 {
    pub x: i64,
    pub y: i64,
    pub z: i64,
    pub w: i64,
}

/// The dot product of two 3-dimensional points, in fixed-point arithmetic.
pub open spec fn dot3_spec(a: Point3, b: Point3) -> int {
    fx_mul_spec(a.x as int, b.x as int) + fx_mul_spec(a.y as int, b.y as int) + fx_mul_spec(
        a.z as int,
        b.z as int,
    )
}

/// Whether the intermediate products and the sum of `dot3_spec` fit in a raw
/// scalar.
pub open spec fn dot3_fits(a: Point3, b: Point3) -> bool {
    &&& fits_i64(fx_mul_spec(a.x as int, b.x as int))
    &&& fits_i64(fx_mul_spec(a.y as int, b.y as int))
    &&& fits_i64(fx_mul_spec(a.z as int, b.z as int))
    &&& fits_i64(dot3_spec(a, b))
}

/// The cross product of two 3-dimensional points, one coordinate at a time.
pub open spec fn cross_x_spec(a: Point3, b: Point3) -> int {
    fx_mul_spec(a.y as int, b.z as int) - fx_mul_spec(a.z as int, b.y as int)
}

pub open spec fn cross_y_spec(a: Point3, b: Point3) -> int {
    fx_mul_spec(a.z as int, b.x as int) - fx_mul_spec(a.x as int, b.z as int)
}

pub open spec fn cross_z_spec(a: Point3, b: Point3) -> int {
    fx_mul_spec(a.x as int, b.y as int) - fx_mul_spec(a.y as int, b.x as int)
}

/// Whether the products inside the cross product and its differences fit.
pub open spec fn cross3_fits(a: Point3, b: Point3) -> bool {
    &&& fits_i64(fx_mul_spec(a.y as int, b.z as int))
    &&& fits_i64(fx_mul_spec(a.z as int, b.y as int))
    &&& fits_i64(fx_mul_spec(a.x as int, b.z as int))
    &&& fits_i64(fx_mul_spec(a.z as int, b.x as int))
    &&& fits_i64(fx_mul_spec(a.x as int, b.y as int))
    &&& fits_i64(fx_mul_spec(a.y as int, b.x as int))
    &&& fits_i64(cross_x_spec(a, b))
    &&& fits_i64(cross_y_spec(a, b))
    &&& fits_i64(cross_z_spec(a, b))
}

/// The sum of the squared raw coordinates: the squared magnitude, scaled by
/// `SCALE * SCALE`.
pub open spec fn mag3_sq_spec(p: Point3) -> int {
    p.x as int * p.x as int + p.y as int * p.y as int + p.z as int * p.z as int
}

/// Coordinates bounded in magnitude by `bound`.
pub open spec fn bounded3(p: Point3, bound: int) -> bool {
    abs_int(p.x as int) <= bound && abs_int(p.y as int) <= bound && abs_int(p.z as int) <= bound
}

impl Point2 {
    pub fn new(coords: [i64; 2]) -> (r: Point2)
        ensures
            r.x == coords[0],
            r.y == coords[1],
    {
        Point2 { x: coords[0], y: coords[1] }
    }

    pub fn coords(&self) -> (r: [i64; 2])
        ensures
            r[0] == self.x,
            r[1] == self.y,
    {
        [self.x, self.y]
    }
}

impl Point3 {
    pub fn new(coords: [i64; 3]) -> (r: Point3)
        ensures
            r.x == coords[0],
            r.y == coords[1],
            r.z == coords[2],
    {
        Point3 { x: coords[0], y: coords[1], z: coords[2] }
    }

    /// The number of coordinates of this point type.
    pub fn dimension() -> (r: usize)
        ensures
            r == 3,
    {
        3
    }

    pub fn coords(&self) -> (r: [i64; 3])
        ensures
            r[0] == self.x,
            r[1] == self.y,
            r[2] == self.z,
    {
        [self.x, self.y, self.z]
    }

    pub fn first(&self) -> (r: i64)
        ensures
            r == self.x,
    {
        self.x
    }

    pub fn last(&self) -> (r: i64)
        ensures
            r == self.z,
    {
        self.z
    }

    pub fn to_tuple(&self) -> (r: (i64, i64, i64))
        ensures
            r == (self.x, self.y, self.z),
    {
        (self.x, self.y, self.z)
    }

    /// Coordinatewise sum.
    pub fn add(&self, other: [i64; 3]) -> (r: Point3)
        requires
            fits_i64(self.x + other[0]),
            fits_i64(self.y + other[1]),
            fits_i64(self.z + other[2]),
        ensures
            r.x == self.x + other[0],
            r.y == self.y + other[1],
            r.z == self.z + other[2],
    {
        Point3 { x: self.x + other[0], y: self.y + other[1], z: self.z + other[2] }
    }

    /// Coordinatewise difference.
    pub fn sub(&self, other: [i64; 3]) -> (r: Point3)
        requires
            fits_i64(self.x - other[0]),
            fits_i64(self.y - other[1]),
            fits_i64(self.z - other[2]),
        ensures
            r.x == self.x - other[0],
            r.y == self.y - other[1],
            r.z == self.z - other[2],
    {
        Point3 { x: self.x - other[0], y: self.y - other[1], z: self.z - other[2] }
    }

    pub fn add_point(&self, other: Point3) -> (r: Point3)
        requires
            fits_i64(self.x + other.x),
            fits_i64(self.y + other.y),
            fits_i64(self.z + other.z),
        ensures
            r.x == self.x + other.x,
            r.y == self.y + other.y,
            r.z == self.z + other.z,
    {
        self.add([other.x, other.y, other.z])
    }

    pub fn sub_point(&self, other: Point3) -> (r: Point3)
        requires
            fits_i64(self.x - other.x),
            fits_i64(self.y - other.y),
            fits_i64(self.z - other.z),
        ensures
            r.x == self.x - other.x,
            r.y == self.y - other.y,
            r.z == self.z - other.z,
    {
        self.sub([other.x, other.y, other.z])
    }

    /// Multiplies every coordinate by the scalar `by`.
    pub fn scale(&self, by: i64) -> (r: Point3)
        requires
            fits_i64(fx_mul_spec(self.x as int, by as int)),
            fits_i64(fx_mul_spec(self.y as int, by as int)),
            fits_i64(fx_mul_spec(self.z as int, by as int)),
        ensures
            r.x as int == fx_mul_spec(self.x as int, by as int),
            r.y as int == fx_mul_spec(self.y as int, by as int),
            r.z as int == fx_mul_spec(self.z as int, by as int),
    {
        Point3 { x: fx_mul(self.x, by), y: fx_mul(self.y, by), z: fx_mul(self.z, by) }
    }

    /// Dot product.
    pub fn dot(&self, other: Point3) -> (r: i64)
        requires
            dot3_fits(*self, other),
        ensures
            r as int == dot3_spec(*self, other),
    {
        let px = fx_mul(self.x, other.x);
        let py = fx_mul(self.y, other.y);
        let pz = fx_mul(self.z, other.z);
        let s: i128 = px as i128 + py as i128 + pz as i128;
        s as i64
    }

    /// Coordinatewise midpoint, rounded toward zero.
    pub fn mid(&self, other: Point3) -> (r: Point3)
        ensures
            r.x as int == tdiv(self.x + other.x, 2),
            r.y as int == tdiv(self.y + other.y, 2),
            r.z as int == tdiv(self.z + other.z, 2),
    {
        proof {
            crate::fixed::lemma_tdiv_abs(self.x + other.x, 2, abs_int(self.x + other.x));
            crate::fixed::lemma_tdiv_abs(self.y + other.y, 2, abs_int(self.y + other.y));
            crate::fixed::lemma_tdiv_abs(self.z + other.z, 2, abs_int(self.z + other.z));
        }
        let x: i128 = (self.x as i128 + other.x as i128) / 2;
        let y: i128 = (self.y as i128 + other.y as i128) / 2;
        let z: i128 = (self.z as i128 + other.z as i128) / 2;
        Point3 { x: x as i64, y: y as i64, z: z as i64 }
    }

    /// Cross product.
    pub fn cross(&self, other: Point3) -> (r: Point3)
        requires
            cross3_fits(*self, other),
        ensures
            r.x as int == cross_x_spec(*self, other),
            r.y as int == cross_y_spec(*self, other),
            r.z as int == cross_z_spec(*self, other),
    {
        let x: i128 = fx_mul(self.y, other.z) as i128 - fx_mul(self.z, other.y) as i128;
        let y: i128 = fx_mul(self.z, other.x) as i128 - fx_mul(self.x, other.z) as i128;
        let z: i128 = fx_mul(self.x, other.y) as i128 - fx_mul(self.y, other.x) as i128;
        Point3 { x: x as i64, y: y as i64, z: z as i64 }
    }

    /// Euclidean length: the square root of the sum of squared coordinates,
    /// rounded down. The result `r` is pinned by
    /// `r * r <= |p|^2 < (r + 1) * (r + 1)` over the raw representation.
    pub fn magnitude(&self) -> (r: i64)
        requires
            bounded3(*self, 0x4000_0000),
        ensures
            r >= 0,
            r as int * r as int <= mag3_sq_spec(*self),
            mag3_sq_spec(*self) < (r as int + 1) * (r as int + 1),
    {
        proof {
            crate::fixed::lemma_abs_mul(self.x as int, self.x as int, 0x4000_0000, 0x4000_0000);
            crate::fixed::lemma_abs_mul(self.y as int, self.y as int, 0x4000_0000, 0x4000_0000);
            crate::fixed::lemma_abs_mul(self.z as int, self.z as int, 0x4000_0000, 0x4000_0000);
            assert(self.x as int * self.x as int >= 0) by (nonlinear_arith);
            assert(self.y as int * self.y as int >= 0) by (nonlinear_arith);
            assert(self.z as int * self.z as int >= 0) by (nonlinear_arith);
            assert((0x4000_0000 as int) * (0x4000_0000 as int) == (0x1000_0000_0000_0000 as int));
        }
        let xx: u64 = (self.x as i128 * self.x as i128) as u64;
        let yy: u64 = (self.y as i128 * self.y as i128) as u64;
        let zz: u64 = (self.z as i128 * self.z as i128) as u64;
        let r: u64 = isqrt_u64(xx + yy + zz);
        r as i64
    }

    /// Scales the point to length one (fixed-point `FX_ONE`), by the
    /// reciprocal of its magnitude. The zero point has no direction and is
    /// excluded.
    pub fn normalize(&self) -> (r: Point3)
        requires
            bounded3(*self, 0x4000_0000),
            mag3_sq_spec(*self) > 0,
        ensures
            ({
                let m = sqrt_floor(mag3_sq_spec(*self));
                let f = fx_recip_spec(m);
                r.x as int == fx_mul_spec(self.x as int, f) && r.y as int == fx_mul_spec(
                    self.y as int,
                    f,
                ) && r.z as int == fx_mul_spec(self.z as int, f)
            }),
    {
        let m = self.magnitude();
        proof {
            lemma_sqrt_floor_unique(mag3_sq_spec(*self), m as int);
            if m == 0 {
                assert((m as int + 1) * (m as int + 1) == 1) by (nonlinear_arith)
                    requires
                        m == 0,
                ;
                assert(false);
            }
            crate::fixed::lemma_tdiv_abs(
                FX_ONE as int * SCALE as int,
                m as int,
                FX_ONE as int * SCALE as int,
            );
        }
        let f = fx_recip(m);
        proof {
            let b: int = 0x1_0000_0000;  // `SCALE * SCALE` bounds the reciprocal
            assert(abs_int(f as int) <= b);
            crate::fixed::lemma_fx_mul_abs(self.x as int, f as int, 0x4000_0000, b);
            crate::fixed::lemma_fx_mul_abs(self.y as int, f as int, 0x4000_0000, b);
            crate::fixed::lemma_fx_mul_abs(self.z as int, f as int, 0x4000_0000, b);
            assert((0x4000_0000 * b) / (SCALE as int) < i64::MAX);
        }
        self.scale(f)
    }

    /// Extends to homogeneous coordinates by appending the scalar one.
    pub fn euc_to_hom(&self) -> (r: Point4)
        ensures
            r == (Point4 { x: self.x, y: self.y, z: self.z, w: FX_ONE }),
    {
        Point4 { x: self.x, y: self.y, z: self.z, w: FX_ONE }
    }

    /// Projects a 3-dimensional homogeneous point back to the plane by
    /// dividing by its last coordinate. A zero last coordinate is a point at
    /// infinity, which this renderer does not handle.
    pub fn hom_to_euc(&self) -> (r: Point2)
        requires
            self.z != 0,
            fits_i64(fx_div_spec(self.x as int, self.z as int)),
            fits_i64(fx_div_spec(self.y as int, self.z as int)),
        ensures
            self.z == FX_ONE ==> r == (Point2 { x: self.x, y: self.y }),
            self.z != FX_ONE ==> r.x as int == fx_div_spec(self.x as int, self.z as int)
                && r.y as int == fx_div_spec(self.y as int, self.z as int),
    {
        if self.z == FX_ONE {
            Point2 { x: self.x, y: self.y }
        } else {
            Point2 { x: fx_div(self.x, self.z), y: fx_div(self.y, self.z) }
        }
    }
}

impl Point4 {
    pub fn new(coords: [i64; 4]) -> (r: Point4)
        ensures
            r.x == coords[0],
            r.y == coords[1],
            r.z == coords[2],
            r.w == coords[3],
    {
        Point4 { x: coords[0], y: coords[1], z: coords[2], w: coords[3] }
    }

    pub fn coords(&self) -> (r: [i64; 4])
        ensures
            r[0] == self.x,
            r[1] == self.y,
            r[2] == self.z,
            r[3] == self.w,
    {
        [self.x, self.y, self.z, self.w]
    }

    /// Returns to Euclidean coordinates by dividing by the fourth component.
    /// A zero fourth component is a point at infinity, which this renderer
    /// does not handle: it is excluded here and rejected by
    /// `checked_hom_to_euc`.
    pub fn hom_to_euc(&self) -> (r: Point3)
        requires
            self.w != 0,
            fits_i64(fx_div_spec(self.x as int, self.w as int)),
            fits_i64(fx_div_spec(self.y as int, self.w as int)),
            fits_i64(fx_div_spec(self.z as int, self.w as int)),
        ensures
            self.w == FX_ONE ==> r == (Point3 { x: self.x, y: self.y, z: self.z }),
            self.w != FX_ONE ==> r.x as int == fx_div_spec(self.x as int, self.w as int)
                && r.y as int == fx_div_spec(self.y as int, self.w as int) && r.z as int
                == fx_div_spec(self.z as int, self.w as int),
    {
        if self.w == FX_ONE {
            Point3 { x: self.x, y: self.y, z: self.z }
        } else {
            Point3 { x: fx_div(self.x, self.w), y: fx_div(self.y, self.w), z: fx_div(self.z, self.w) }
        }
    }

    /// As `hom_to_euc`, but fails fast on a point at infinity instead of
    /// excluding it by precondition.
    pub fn checked_hom_to_euc(&self) -> (r: Option<Point3>)
        requires
            fits_i64(fx_div_spec(self.x as int, self.w as int)),
            fits_i64(fx_div_spec(self.y as int, self.w as int)),
            fits_i64(fx_div_spec(self.z as int, self.w as int)),
        ensures
            r is Some <==> self.w != 0,
            self.w != 0 ==> r == Some(self.hom_to_euc_spec()),
    {
        if self.w == 0 {
            None
        } else {
            Some(self.hom_to_euc())
        }
    }

    /// The Euclidean point that `hom_to_euc` returns.
    pub open spec fn hom_to_euc_spec(&self) -> Point3 {
        if self.w == FX_ONE {
            Point3 { x: self.x, y: self.y, z: self.z }
        } else {
            Point3 {
                x: fx_div_spec(self.x as int, self.w as int) as i64,
                y: fx_div_spec(self.y as int, self.w as int) as i64,
                z: fx_div_spec(self.z as int, self.w as int) as i64,
            }
        }
    }
}

/// Round-trip law: extending a point to homogeneous coordinates and
/// converting back returns the point unchanged, exactly.
pub proof fn lemma_hom_round_trip(p: Point3)
    ensures
        p.euc_to_hom_spec().hom_to_euc_spec() == p,
{
}

impl Point3 {
    /// The homogeneous point that `euc_to_hom` returns.
    pub open spec fn euc_to_hom_spec(&self) -> Point4 {
        Point4 { x: self.x, y: self.y, z: self.z, w: FX_ONE }
    }
}

/// The square root of `n`, rounded down.
pub open spec fn sqrt_floor(n: int) -> int
    decreases n,
{
    if n < 1 {
        0
    } else {
        let r = sqrt_floor(n - 1);
        if (r + 1) * (r + 1) <= n {
            r + 1
        } else {
            r
        }
    }
}

/// The square of `sqrt_floor(n)` brackets `n`.
pub proof fn lemma_sqrt_floor_bounds(n: int)
    requires
        n >= 0,
    ensures
        sqrt_floor(n) >= 0,
        sqrt_floor(n) * sqrt_floor(n) <= n,
        n < (sqrt_floor(n) + 1) * (sqrt_floor(n) + 1),
    decreases n,
{
    if n == 0 {
    } else {
        lemma_sqrt_floor_bounds(n - 1);
        let r = sqrt_floor(n - 1);
        if (r + 1) * (r + 1) <= n {
            assert(n <= (r + 1) * (r + 1));
            assert(n < (r + 2) * (r + 2)) by (nonlinear_arith)
                requires
                    r >= 0,
                    n <= (r + 1) * (r + 1),
            ;
        }
    }
}

/// `sqrt_floor(n)` is the unique nonnegative integer whose square brackets
/// `n`.
pub proof fn lemma_sqrt_floor_unique(n: int, r: int)
    requires
        r >= 0,
        r * r <= n,
        n < (r + 1) * (r + 1),
    ensures
        sqrt_floor(n) == r,
{
    assert(n >= 0) by (nonlinear_arith)
        requires
            r * r <= n,
    ;
    lemma_sqrt_floor_bounds(n);
    let s = sqrt_floor(n);
    if r < s {
        assert((r + 1) * (r + 1) <= s * s) by (nonlinear_arith)
            requires
                0 <= r + 1 <= s,
        ;
    }
    if s < r {
        assert((s + 1) * (s + 1) <= r * r) by (nonlinear_arith)
            requires
                0 <= s + 1 <= r,
        ;
    }
}

/// The square root of a 64-bit integer, rounded down, by bisection.
pub fn isqrt_u64(n: u64) -> (r: u64)
    ensures
        r <= 0x1_0000_0000,
        r as int * r as int <= n as int,
        n < (r as int + 1) * (r as int + 1),
{
    let mut lo: u64 = 0;
    let mut hi: u64 = 0x1_0000_0000;
    while lo + 1 < hi
        invariant
            lo < hi <= 0x1_0000_0000,
            lo as int * lo as int <= n as int,
            n < hi as int * hi as int,
        decreases hi - lo,
    {
        let mid: u64 = lo + (hi - lo) / 2;
        proof {
            assert(mid as int * mid as int <= (0xffff_ffff as int) * (0xffff_ffff as int))
                by (nonlinear_arith)
                requires
                    0 <= mid <= (0xffff_ffff as int),
            ;
        }
        if mid * mid <= n {
            lo = mid;
        } else {
            hi = mid;
        }
    }
    lo
}

} // verus!

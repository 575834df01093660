//! Back-face culling: a triangle faces the camera exactly when the vector
//! from the camera to its first vertex and its outward surface normal
//! (the cross product of two of its legs) point against each other.
//!
//! The decision is the sign of a dot product, which normalization cannot
//! change, so it is taken here over exact wide-integer arithmetic.

use vstd::prelude::*;
use crate::fixed::abs_int;
use crate::geometry::{bounded3, Point3};

verus! {

/// The orientation form deciding visibility: the exact integer dot product
/// of the camera-to-vertex vector with the unnormalized surface normal
/// `(v1 - v0) x (v2 - v0)`, over raw coordinates.
pub open spec fn orient3(v0: Point3, v1: Point3, v2: Point3, cam: Point3) -> int {
    let ax = v1.x - v0.x;
    let ay = v1.y - v0.y;
    let az = v1.z - v0.z;
    let bx = v2.x - v0.x;
    let by = v2.y - v0.y;
    let bz = v2.z - v0.z;
    let nx = ay * bz - az * by;
    let ny = az * bx - ax * bz;
    let nz = ax * by - ay * bx;
    let dx = v0.x - cam.x;
    let dy = v0.y - cam.y;
    let dz = v0.z - cam.z;
    dx * nx + dy * ny + dz * nz
}

/// The coordinate bound under which the orientation form is computed
/// exactly in wide integers (2^26 raw, a coordinate value of 1024).
pub const CULL_BOUND: i64 = 0x400_0000;

/// Whether the triangle `(v0, v1, v2)` faces a camera at `cam`: the
/// orientation form is negative. A triangle whose form is zero is seen
/// edge-on and is treated as facing away, as is a degenerate one.
pub fn facing_camera(v0: Point3, v1: Point3, v2: Point3, cam: Point3) -> (r: bool)
    requires
        bounded3(v0, CULL_BOUND as int),
        bounded3(v1, CULL_BOUND as int),
        bounded3(v2, CULL_BOUND as int),
        bounded3(cam, CULL_BOUND as int),
    ensures
        r == (orient3(v0, v1, v2, cam) < 0),
{
    let ax: i128 = v1.x as i128 - v0.x as i128;
    let ay: i128 = v1.y as i128 - v0.y as i128;
    let az: i128 = v1.z as i128 - v0.z as i128;
    let bx: i128 = v2.x as i128 - v0.x as i128;
    let by: i128 = v2.y as i128 - v0.y as i128;
    let bz: i128 = v2.z as i128 - v0.z as i128;
    proof {
        lemma_cull_products(v0, v1, v2, cam);
    }
    let nx: i128 = ay * bz - az * by;
    let ny: i128 = az * bx - ax * bz;
    let nz: i128 = ax * by - ay * bx;
    let dx: i128 = v0.x as i128 - cam.x as i128;
    let dy: i128 = v0.y as i128 - cam.y as i128;
    let dz: i128 = v0.z as i128 - cam.z as i128;
    let orient: i128 = dx * nx + dy * ny + dz * nz;
    orient < 0
}

/// Bounds on the products inside the orientation form of bounded points.
proof fn lemma_cull_products(v0: Point3, v1: Point3, v2: Point3, cam: Point3)
    requires
        bounded3(v0, CULL_BOUND as int),
        bounded3(v1, CULL_BOUND as int),
        bounded3(v2, CULL_BOUND as int),
        bounded3(cam, CULL_BOUND as int),
    ensures
        abs_int((v1.y - v0.y) * (v2.z - v0.z)) <= 18014398509481984,
        abs_int((v1.z - v0.z) * (v2.y - v0.y)) <= 18014398509481984,
        abs_int((v1.z - v0.z) * (v2.x - v0.x)) <= 18014398509481984,
        abs_int((v1.x - v0.x) * (v2.z - v0.z)) <= 18014398509481984,
        abs_int((v1.x - v0.x) * (v2.y - v0.y)) <= 18014398509481984,
        abs_int((v1.y - v0.y) * (v2.x - v0.x)) <= 18014398509481984,
        abs_int((v0.x - cam.x) * ((v1.y - v0.y) * (v2.z - v0.z) - (v1.z - v0.z) * (v2.y - v0.y))) <= 4835703278458516698824704,
        abs_int((v0.y - cam.y) * ((v1.z - v0.z) * (v2.x - v0.x) - (v1.x - v0.x) * (v2.z - v0.z))) <= 4835703278458516698824704,
        abs_int((v0.z - cam.z) * ((v1.x - v0.x) * (v2.y - v0.y) - (v1.y - v0.y) * (v2.x - v0.x))) <= 4835703278458516698824704,
{
    crate::fixed::lemma_abs_mul(v1.y - v0.y, v2.z - v0.z, 134217728, 134217728);
    crate::fixed::lemma_abs_mul(v1.z - v0.z, v2.y - v0.y, 134217728, 134217728);
    crate::fixed::lemma_abs_mul(v1.z - v0.z, v2.x - v0.x, 134217728, 134217728);
    crate::fixed::lemma_abs_mul(v1.x - v0.x, v2.z - v0.z, 134217728, 134217728);
    crate::fixed::lemma_abs_mul(v1.x - v0.x, v2.y - v0.y, 134217728, 134217728);
    crate::fixed::lemma_abs_mul(v1.y - v0.y, v2.x - v0.x, 134217728, 134217728);
    crate::fixed::lemma_abs_mul(v0.x - cam.x, (v1.y - v0.y) * (v2.z - v0.z) - (v1.z - v0.z) * (v2.y - v0.y), 134217728, 36028797018963968);
    crate::fixed::lemma_abs_mul(v0.y - cam.y, (v1.z - v0.z) * (v2.x - v0.x) - (v1.x - v0.x) * (v2.z - v0.z), 134217728, 36028797018963968);
    crate::fixed::lemma_abs_mul(v0.z - cam.z, (v1.x - v0.x) * (v2.y - v0.y) - (v1.y - v0.y) * (v2.x - v0.x), 134217728, 36028797018963968);
}


/// Winding law: exchanging two vertices of a triangle negates its
/// orientation form, so whenever the form is nonzero, reversing the winding
/// order flips the culling decision.
pub proof fn lemma_winding_flips_cull(v0: Point3, v1: Point3, v2: Point3, cam: Point3)
    ensures
        orient3(v0, v2, v1, cam) == -orient3(v0, v1, v2, cam),
        orient3(v0, v1, v2, cam) != 0 ==> ((orient3(v0, v2, v1, cam) < 0) != (orient3(
            v0,
            v1,
            v2,
            cam,
        ) < 0)),
{
    let ax = v1.x - v0.x;
    let ay = v1.y - v0.y;
    let az = v1.z - v0.z;
    let bx = v2.x - v0.x;
    let by = v2.y - v0.y;
    let bz = v2.z - v0.z;
    let dx = v0.x - cam.x;
    let dy = v0.y - cam.y;
    let dz = v0.z - cam.z;
    assert(dx * (by * az - bz * ay) == -(dx * (ay * bz - az * by))) by (nonlinear_arith);
    assert(dy * (bz * ax - bx * az) == -(dy * (az * bx - ax * bz))) by (nonlinear_arith);
    assert(dz * (bx * ay - by * ax) == -(dz * (ax * by - ay * bx))) by (nonlinear_arith);
}

} // verus!

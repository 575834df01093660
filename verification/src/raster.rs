//! Triangle rasterization: edge-function filling of a projected triangle
//! over its clamped bounding box, with perspective-correct, z-buffered
//! depth interpolation. Every pixel of the screen is pinned: covered
//! pixels take the depth-tested fragment, all others are untouched.

use vstd::prelude::*;
use crate::fixed::{abs_int, tdiv};
use crate::screen::{depth_write, ScreenBuffer, Z_FAR};

verus! {

/// The coordinate bound for rasterization: screen dimensions and vertex
/// coordinates up to 8192 pixels, depths up to the mesh range.
pub const RASTER_BOUND: i64 = 8192;

/// A projected vertex: screen x and y in pixels, and a positive
/// fixed-point depth for the z-buffer.
#[derive(Clone, Copy, PartialEq, Eq, Structural, Debug)]
pub struct ProjectedPoint {
    pub x: i64,
    pub y: i64,
    pub z: i64,
}

/// Three projected vertices.
#[derive(Clone, Copy, PartialEq, Eq, Structural, Debug)]
pub struct ProjectedTriangle {
    pub v0: ProjectedPoint,
    pub v1: ProjectedPoint,
    pub v2: ProjectedPoint,
}

/// The edge function of the directed edge from `(ax, ay)` to `(bx, by)`
/// at the point `(px, py)`: positive on one side, negative on the other,
/// zero on the edge.
pub open spec fn edge_fn(ax: int, ay: int, bx: int, by: int, px: int, py: int) -> int {
    (ay - by) * px + (bx - ax) * py + (ax * by - bx * ay)
}

/// Twice the signed area of the triangle: zero exactly for a degenerate
/// one.
pub open spec fn area2(t: ProjectedTriangle) -> int {
    (t.v1.x - t.v0.x) * (t.v2.y - t.v0.y) - (t.v2.x - t.v0.x) * (t.v1.y - t.v0.y)
}

/// The three edge values of the triangle at a pixel, in edge order
/// `v0->v1`, `v1->v2`, `v2->v0`.
pub open spec fn edge0(t: ProjectedTriangle, px: int, py: int) -> int {
    edge_fn(t.v0.x as int, t.v0.y as int, t.v1.x as int, t.v1.y as int, px, py)
}

pub open spec fn edge1(t: ProjectedTriangle, px: int, py: int) -> int {
    edge_fn(t.v1.x as int, t.v1.y as int, t.v2.x as int, t.v2.y as int, px, py)
}

pub open spec fn edge2(t: ProjectedTriangle, px: int, py: int) -> int {
    edge_fn(t.v2.x as int, t.v2.y as int, t.v0.x as int, t.v0.y as int, px, py)
}

/// Whether the pixel `(px, py)` lies on or inside all three edges of the
/// triangle, in its winding order.
pub open spec fn covers(t: ProjectedTriangle, px: int, py: int) -> bool {
    edge0(t, px, py) >= 0 && edge1(t, px, py) >= 0 && edge2(t, px, py) >= 0
}

/// Saturates a mathematical integer into the raw scalar range.
pub open spec fn clamp_i64(q: int) -> int {
    if q > i64::MAX {
        i64::MAX as int
    } else if q < i64::MIN {
        i64::MIN as int
    } else {
        q
    }
}

/// The perspective-correct interpolated depth at pixel `(px, py)`: the
/// reciprocal depth is interpolated with the barycentric edge weights and
/// inverted back, all over exact integers with one truncating division,
/// saturated into the scalar range. A nonpositive weight total has no
/// interpolant and maps to the far value.
pub open spec fn tri_depth(t: ProjectedTriangle, px: int, py: int) -> int {
    let e0 = edge0(t, px, py);
    let e1 = edge1(t, px, py);
    let e2 = edge2(t, px, py);
    let s = e0 + e1 + e2;
    let num = s * (((t.v0.z as int) * (t.v1.z as int)) * (t.v2.z as int));
    let den = e1 * ((t.v1.z as int) * (t.v2.z as int)) + e2 * ((t.v0.z as int) * (t.v2.z as int))
        + e0 * ((t.v0.z as int) * (t.v1.z as int));
    if den <= 0 {
        Z_FAR as int
    } else {
        clamp_i64(tdiv(num, den))
    }
}

/// The clamped bounding box of the triangle on a `w` by `h` screen.
pub open spec fn bbox_x_lo(t: ProjectedTriangle) -> int {
    let m = if t.v0.x <= t.v1.x && t.v0.x <= t.v2.x {
        t.v0.x as int
    } else if t.v1.x <= t.v2.x {
        t.v1.x as int
    } else {
        t.v2.x as int
    };
    if m < 0 {
        0
    } else {
        m
    }
}

pub open spec fn bbox_x_hi(t: ProjectedTriangle, w: int) -> int {
    let m = if t.v0.x >= t.v1.x && t.v0.x >= t.v2.x {
        t.v0.x as int
    } else if t.v1.x >= t.v2.x {
        t.v1.x as int
    } else {
        t.v2.x as int
    };
    if m > w - 1 {
        w - 1
    } else {
        m
    }
}

pub open spec fn bbox_y_lo(t: ProjectedTriangle) -> int {
    let m = if t.v0.y <= t.v1.y && t.v0.y <= t.v2.y {
        t.v0.y as int
    } else if t.v1.y <= t.v2.y {
        t.v1.y as int
    } else {
        t.v2.y as int
    };
    if m < 0 {
        0
    } else {
        m
    }
}

pub open spec fn bbox_y_hi(t: ProjectedTriangle, h: int) -> int {
    let m = if t.v0.y >= t.v1.y && t.v0.y >= t.v2.y {
        t.v0.y as int
    } else if t.v1.y >= t.v2.y {
        t.v1.y as int
    } else {
        t.v2.y as int
    };
    if m > h - 1 {
        h - 1
    } else {
        m
    }
}

/// Whether pixel `(px, py)` lies in the triangle's clamped bounding box.
pub open spec fn in_bbox(t: ProjectedTriangle, w: int, h: int, px: int, py: int) -> bool {
    bbox_x_lo(t) <= px <= bbox_x_hi(t, w) && bbox_y_lo(t) <= py <= bbox_y_hi(t, h)
}

/// The cell a rasterized pixel ends in: a covered bounding-box pixel takes
/// the depth-tested fragment; every other pixel keeps its state.
pub open spec fn raster_cell(
    t: ProjectedTriangle,
    w: int,
    h: int,
    color: u32,
    old_color: u32,
    old_depth: i64,
    px: int,
    py: int,
) -> (u32, i64) {
    if in_bbox(t, w, h, px, py) && covers(t, px, py) {
        depth_write(old_color, old_depth, color, tri_depth(t, px, py) as i64)
    } else {
        (old_color, old_depth)
    }
}

/// The color of pixel `(px, py)` in a row-major buffer of width `w`.
pub open spec fn pix(b: Seq<u32>, w: int, px: int, py: int) -> u32 {
    b[py * w + px]
}

/// The depth of pixel `(px, py)` in a row-major depth buffer of width `w`.
pub open spec fn pixz(b: Seq<i64>, w: int, px: int, py: int) -> i64 {
    b[py * w + px]
}

/// All triangle coordinates within the raster bound, with positive depths.
pub open spec fn triangle_bounded(t: ProjectedTriangle) -> bool {
    &&& abs_int(t.v0.x as int) <= RASTER_BOUND as int
    &&& abs_int(t.v0.y as int) <= RASTER_BOUND as int
    &&& abs_int(t.v1.x as int) <= RASTER_BOUND as int
    &&& abs_int(t.v1.y as int) <= RASTER_BOUND as int
    &&& abs_int(t.v2.x as int) <= RASTER_BOUND as int
    &&& abs_int(t.v2.y as int) <= RASTER_BOUND as int
    &&& 0 < t.v0.z <= 0x400_0000
    &&& 0 < t.v1.z <= 0x400_0000
    &&& 0 < t.v2.z <= 0x400_0000
}

/// The edge function, evaluated exactly.
fn edge_val(ax: i64, ay: i64, bx: i64, by: i64, px: i64, py: i64) -> (r: i64)
    requires
        abs_int(ax as int) <= RASTER_BOUND as int,
        abs_int(ay as int) <= RASTER_BOUND as int,
        abs_int(bx as int) <= RASTER_BOUND as int,
        abs_int(by as int) <= RASTER_BOUND as int,
        abs_int(px as int) <= RASTER_BOUND as int,
        abs_int(py as int) <= RASTER_BOUND as int,
    ensures
        r as int == edge_fn(ax as int, ay as int, bx as int, by as int, px as int, py as int),
        abs_int(r as int) <= 402653184,
    {
    proof {
        crate::fixed::lemma_abs_mul(ay - by, px as int, 16384, 8192);
        crate::fixed::lemma_abs_mul(bx - ax, py as int, 16384, 8192);
        crate::fixed::lemma_abs_mul(ax as int, by as int, 8192, 8192);
        crate::fixed::lemma_abs_mul(bx as int, ay as int, 8192, 8192);
    }
    (ay - by) * px + (bx - ax) * py + (ax * by - bx * ay)
}

/// The interpolated depth, evaluated exactly and saturated.
fn depth_val(t: &ProjectedTriangle, px: i64, py: i64) -> (r: i64)
    requires
        triangle_bounded(*t),
        abs_int(px as int) <= RASTER_BOUND as int,
        abs_int(py as int) <= RASTER_BOUND as int,
    ensures
        r as int == tri_depth(*t, px as int, py as int),
{
    let e0 = edge_val(t.v0.x, t.v0.y, t.v1.x, t.v1.y, px, py);
    let e1 = edge_val(t.v1.x, t.v1.y, t.v2.x, t.v2.y, px, py);
    let e2 = edge_val(t.v2.x, t.v2.y, t.v0.x, t.v0.y, px, py);
    proof {
        assert((0x400_0000 as int) * (0x400_0000 as int) == 0x10_0000_0000_0000) by (nonlinear_arith);
        assert((0x10_0000_0000_0000 as int) * (0x400_0000 as int)
            == 302231454903657293676544) by (nonlinear_arith);
        assert((1207959552 as int) * (302231454903657293676544 as int)
            == 365083372865730067631050523148288) by (nonlinear_arith);
        assert((402653184 as int) * (0x10_0000_0000_0000 as int)
            == 1813388729421943762059264) by (nonlinear_arith);
        crate::fixed::lemma_abs_mul(t.v0.z as int, t.v1.z as int, 0x400_0000, 0x400_0000);
        crate::fixed::lemma_abs_mul(t.v1.z as int, t.v2.z as int, 0x400_0000, 0x400_0000);
        crate::fixed::lemma_abs_mul(t.v0.z as int, t.v2.z as int, 0x400_0000, 0x400_0000);
        crate::fixed::lemma_abs_mul(
            (t.v0.z as int) * (t.v1.z as int),
            t.v2.z as int,
            0x10_0000_0000_0000,
            0x400_0000,
        );
        crate::fixed::lemma_abs_mul(
            e0 as int + e1 as int + e2 as int,
            ((t.v0.z as int) * (t.v1.z as int)) * (t.v2.z as int),
            1207959552,
            302231454903657293676544,
        );
        crate::fixed::lemma_abs_mul(e1 as int, (t.v1.z as int) * (t.v2.z as int), 402653184, 0x10_0000_0000_0000);
        crate::fixed::lemma_abs_mul(e2 as int, (t.v0.z as int) * (t.v2.z as int), 402653184, 0x10_0000_0000_0000);
        crate::fixed::lemma_abs_mul(e0 as int, (t.v0.z as int) * (t.v1.z as int), 402653184, 0x10_0000_0000_0000);
    }
    let s: i128 = e0 as i128 + e1 as i128 + e2 as i128;
    let z01: i128 = (t.v0.z as i128) * (t.v1.z as i128);
    let z12: i128 = (t.v1.z as i128) * (t.v2.z as i128);
    let z02: i128 = (t.v0.z as i128) * (t.v2.z as i128);
    let num: i128 = s * (z01 * (t.v2.z as i128));
    let den: i128 = (e1 as i128) * z12 + (e2 as i128) * z02 + (e0 as i128) * z01;
    if den <= 0 {
        return Z_FAR;
    }
    proof {
        crate::fixed::lemma_tdiv_abs_any(
            num as int,
            den as int,
            365083372865730067631050523148288,
        );
    }
    let q: i128 = num / den;
    if q > i64::MAX as i128 {
        i64::MAX
    } else if q < i64::MIN as i128 {
        i64::MIN
    } else {
        q as i64
    }
}

/// Two distinct on-screen pixels live in distinct cells.
proof fn lemma_cell_injective(w: int, x1: int, y1: int, x2: int, y2: int)
    by (nonlinear_arith)
    requires
        0 <= x1 < w,
        0 <= x2 < w,
        y1 * w + x1 == y2 * w + x2,
    ensures
        x1 == x2,
        y1 == y2,
{
}

impl ScreenBuffer {
    /// Fills a projected triangle: every covered pixel of the clamped
    /// bounding box is offered the triangle's interpolated depth and takes
    /// `color` exactly when it wins the depth test; every other pixel, and
    /// everything under a degenerate (zero-area) triangle, is untouched.
    #[verifier::rlimit(100)]
    pub fn fill_projected_triangle(&mut self, triangle: &ProjectedTriangle, color: u32)
        requires
            old(self).wf(),
            1 <= old(self).spec_width() <= RASTER_BOUND,
            1 <= old(self).spec_height() <= RASTER_BOUND,
            triangle_bounded(*triangle),
        ensures
            final(self).wf(),
            final(self).spec_width() == old(self).spec_width(),
            final(self).spec_height() == old(self).spec_height(),
            area2(*triangle) == 0 ==> final(self).buffer@ == old(self).buffer@
                && final(self).z_buffer@ == old(self).z_buffer@,
            area2(*triangle) != 0 ==> forall|px: int, py: int|
                #![trigger pix(final(self).buffer@, old(self).spec_width(), px, py)]
                0 <= px < old(self).spec_width() && 0 <= py < old(self).spec_height() ==> (
                pix(final(self).buffer@, old(self).spec_width(), px, py),
                pixz(final(self).z_buffer@, old(self).spec_width(), px, py),
                ) == raster_cell(
                    *triangle,
                    old(self).spec_width(),
                    old(self).spec_height(),
                    color,
                    pix(old(self).buffer@, old(self).spec_width(), px, py),
                    pixz(old(self).z_buffer@, old(self).spec_width(), px, py),
                    px,
                    py,
                ),
    {
        let ghost w = self.spec_width();
        let ghost h = self.spec_height();
        let t = *triangle;
        proof {
            assert((16384 as int) * (16384 as int) == 268435456) by (nonlinear_arith);
            crate::fixed::lemma_abs_mul(t.v1.x - t.v0.x, t.v2.y - t.v0.y, 16384, 16384);
            crate::fixed::lemma_abs_mul(t.v2.x - t.v0.x, t.v1.y - t.v0.y, 16384, 16384);
        }
        let area: i64 = (t.v1.x - t.v0.x) * (t.v2.y - t.v0.y) - (t.v2.x - t.v0.x) * (t.v1.y
            - t.v0.y);
        if area == 0 {
            return ;
        }
        let min_x0 = if t.v0.x <= t.v1.x && t.v0.x <= t.v2.x {
            t.v0.x
        } else if t.v1.x <= t.v2.x {
            t.v1.x
        } else {
            t.v2.x
        };
        let max_x0 = if t.v0.x >= t.v1.x && t.v0.x >= t.v2.x {
            t.v0.x
        } else if t.v1.x >= t.v2.x {
            t.v1.x
        } else {
            t.v2.x
        };
        let min_y0 = if t.v0.y <= t.v1.y && t.v0.y <= t.v2.y {
            t.v0.y
        } else if t.v1.y <= t.v2.y {
            t.v1.y
        } else {
            t.v2.y
        };
        let max_y0 = if t.v0.y >= t.v1.y && t.v0.y >= t.v2.y {
            t.v0.y
        } else if t.v1.y >= t.v2.y {
            t.v1.y
        } else {
            t.v2.y
        };
        let min_x = if min_x0 < 0 {
            0
        } else {
            min_x0
        };
        let max_x = if max_x0 > self.width as i64 - 1 {
            self.width as i64 - 1
        } else {
            max_x0
        };
        let min_y = if min_y0 < 0 {
            0
        } else {
            min_y0
        };
        let max_y = if max_y0 > self.height as i64 - 1 {
            self.height as i64 - 1
        } else {
            max_y0
        };
        if min_x > max_x || min_y > max_y {
            return ;
        }
        let mut py = min_y;
        while py <= max_y
            invariant
                self.wf(),
                self.width == old(self).width,
                self.height == old(self).height,
                w == self.spec_width(),
                h == self.spec_height(),
                1 <= w <= RASTER_BOUND,
                1 <= h <= RASTER_BOUND,
                t == *triangle,
                triangle_bounded(t),
                min_x as int == bbox_x_lo(t),
                max_x as int == bbox_x_hi(t, w),
                min_y as int == bbox_y_lo(t),
                max_y as int == bbox_y_hi(t, h),
                0 <= min_x <= max_x,
                max_x < w,
                0 <= min_y <= max_y,
                max_y < h,
                min_y <= py,
                py <= max_y + 1,
                forall|qx: int, qy: int|
                    #![trigger pix(self.buffer@, w, qx, qy)]
                    0 <= qx < w && 0 <= qy < h ==> (pix(self.buffer@, w, qx, qy), pixz(
                        self.z_buffer@,
                        w,
                        qx,
                        qy,
                    )) == (if qy < py && in_bbox(t, w, h, qx, qy) && covers(t, qx, qy) {
                        depth_write(
                            pix(old(self).buffer@, w, qx, qy),
                            pixz(old(self).z_buffer@, w, qx, qy),
                            color,
                            tri_depth(t, qx, qy) as i64,
                        )
                    } else {
                        (pix(old(self).buffer@, w, qx, qy), pixz(old(self).z_buffer@, w, qx, qy))
                    }),
            decreases max_y + 1 - py,
        {
            let mut px = min_x;
            while px <= max_x
                invariant
                    self.wf(),
                    self.width == old(self).width,
                    self.height == old(self).height,
                    w == self.spec_width(),
                    h == self.spec_height(),
                    1 <= w <= RASTER_BOUND,
                    1 <= h <= RASTER_BOUND,
                    t == *triangle,
                    triangle_bounded(t),
                    min_x as int == bbox_x_lo(t),
                    max_x as int == bbox_x_hi(t, w),
                    min_y as int == bbox_y_lo(t),
                    max_y as int == bbox_y_hi(t, h),
                    min_y <= py <= max_y,
                    min_x <= px,
                    px <= max_x + 1,
                    forall|qx: int, qy: int|
                        #![trigger pix(self.buffer@, w, qx, qy)]
                        0 <= qx < w && 0 <= qy < h ==> (pix(self.buffer@, w, qx, qy), pixz(
                            self.z_buffer@,
                            w,
                            qx,
                            qy,
                        )) == (if (qy < py || (qy == py && qx < px)) && in_bbox(t, w, h, qx, qy)
                            && covers(t, qx, qy) {
                            depth_write(
                                pix(old(self).buffer@, w, qx, qy),
                                pixz(old(self).z_buffer@, w, qx, qy),
                                color,
                                tri_depth(t, qx, qy) as i64,
                            )
                        } else {
                            (pix(old(self).buffer@, w, qx, qy), pixz(old(self).z_buffer@, w, qx, qy))
                        }),
                decreases max_x + 1 - px,
            {
                let e0 = edge_val(t.v0.x, t.v0.y, t.v1.x, t.v1.y, px, py);
                let e1 = edge_val(t.v1.x, t.v1.y, t.v2.x, t.v2.y, px, py);
                let e2 = edge_val(t.v2.x, t.v2.y, t.v0.x, t.v0.y, px, py);
                let ghost buf0 = self.buffer@;
                let ghost z0 = self.z_buffer@;
                proof {
                    assert((pix(self.buffer@, w, px as int, py as int), pixz(
                        self.z_buffer@,
                        w,
                        px as int,
                        py as int,
                    )) == (pix(old(self).buffer@, w, px as int, py as int), pixz(
                        old(self).z_buffer@,
                        w,
                        px as int,
                        py as int,
                    )));
                }
                if e0 >= 0 && e1 >= 0 && e2 >= 0 {
                    let z = depth_val(&t, px, py);
                    self.set_pixel_z(px as usize, py as usize, color, z);
                }
                proof {
                    assert forall|qx: int, qy: int|
                        #![trigger pix(self.buffer@, w, qx, qy)]
                        0 <= qx < w && 0 <= qy < h implies (pix(self.buffer@, w, qx, qy), pixz(
                        self.z_buffer@,
                        w,
                        qx,
                        qy,
                    )) == (if (qy < py || (qy == py && qx < px + 1)) && in_bbox(t, w, h, qx, qy)
                        && covers(t, qx, qy) {
                        depth_write(
                            pix(old(self).buffer@, w, qx, qy),
                            pixz(old(self).z_buffer@, w, qx, qy),
                            color,
                            tri_depth(t, qx, qy) as i64,
                        )
                    } else {
                        (pix(old(self).buffer@, w, qx, qy), pixz(old(self).z_buffer@, w, qx, qy))
                    }) by {
                        if qx == px as int && qy == py as int {
                            assert(self.buffer@.len() == w * h);
                            assert(0 <= (py as int) * w + (px as int) < w * h) by (nonlinear_arith)
                                requires
                                    0 <= (px as int) < w,
                                    0 <= (py as int) < h,
                            ;
                        } else if qy * w + qx == (py as int) * w + (px as int) {
                            lemma_cell_injective(w, qx, qy, px as int, py as int);
                        } else {
                            assert(0 <= qy * w + qx < w * h) by (nonlinear_arith)
                                requires
                                    0 <= qx < w,
                                    0 <= qy < h,
                            ;
                            assert(qy * w + qx != (py as int) * w + (px as int));
                            assert(self.buffer@.len() == w * h);
                            assert(0 <= (py as int) * w + (px as int) < w * h) by (nonlinear_arith)
                                requires
                                    0 <= (px as int) < w,
                                    0 <= (py as int) < h,
                            ;
                            assert(self.buffer@[qy * w + qx] == buf0[qy * w + qx]);
                            assert(pix(buf0, w, qx, qy) == pix(self.buffer@, w, qx, qy));
                            assert(pixz(z0, w, qx, qy) == pixz(self.z_buffer@, w, qx, qy));
                        }
                    }
                }
                px += 1;
            }
            py += 1;
        }
        proof {
            assert forall|px: int, py: int|
                #![trigger pix(self.buffer@, w, px, py)]
                0 <= px < w && 0 <= py < h implies (pix(self.buffer@, w, px, py), pixz(
                self.z_buffer@,
                w,
                px,
                py,
            )) == raster_cell(
                t,
                w,
                h,
                color,
                pix(old(self).buffer@, w, px, py),
                pixz(old(self).z_buffer@, w, px, py),
                px,
                py,
            ) by {
            }
        }
    }
}

} // verus!

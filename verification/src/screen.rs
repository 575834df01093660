//! The screen buffer: a width-by-height color buffer with a parallel depth
//! buffer, written pixel by pixel by the rasterizer, with the depth test
//! that resolves overlap between triangles.

use vstd::prelude::*;
use crate::fixed::{abs_int, tdiv};

verus! {

/// The depth value that every cleared depth cell holds: further than any
/// real fragment.
pub const Z_FAR: i64 = i64::MAX;

/// A color buffer and a parallel depth buffer of the same dimensions.
pub struct ScreenBuffer {
    pub buffer: Vec<u32>,
    pub z_buffer: Vec<i64>,
    pub width: usize,
    pub height: usize,
}

/// One step of the depth test: the stored color and depth of a cell after a
/// fragment of color `c` at depth `z` is offered to a cell holding
/// `(color0, z0)`. The fragment lands exactly when it is strictly nearer.
pub open spec fn depth_write(color0: u32, z0: i64, c: u32, z: i64) -> (u32, i64) {
    if z < z0 {
        (c, z)
    } else {
        (color0, z0)
    }
}

/// Depth-buffer order law: offering two fragments of different depths to the
/// same cell in either order leaves the same cell state; when both are
/// nearer than the cell's depth, the cell ends holding the nearer fragment's
/// color.
pub proof fn lemma_depth_write_order(color0: u32, z0: i64, c1: u32, z1: i64, c2: u32, z2: i64)
    requires
        z1 != z2,
    ensures
        ({
            let (ca, za) = depth_write(color0, z0, c1, z1);
            let (cb, zb) = depth_write(ca, za, c2, z2);
            let (cc, zc) = depth_write(color0, z0, c2, z2);
            let (cd, zd) = depth_write(cc, zc, c1, z1);
            (cb, zb) == (cd, zd)
        }),
        z1 < z0 && z2 < z0 ==> ({
            let (ca, za) = depth_write(color0, z0, c1, z1);
            let (cb, zb) = depth_write(ca, za, c2, z2);
            (cb, zb) == (if z1 < z2 {
                (c1, z1)
            } else {
                (c2, z2)
            })
        }),
{
}

impl ScreenBuffer {
    /// Both buffers sized to the screen dimensions.
    pub open spec fn wf(&self) -> bool {
        &&& self.buffer@.len() == self.width as int * self.height as int
        &&& self.z_buffer@.len() == self.width as int * self.height as int
    }

    /// The cell index of the pixel at `(x, y)`.
    pub open spec fn cell(&self, x: int, y: int) -> int {
        y * self.width as int + x
    }

    pub open spec fn spec_width(&self) -> int {
        self.width as int
    }

    pub open spec fn spec_height(&self) -> int {
        self.height as int
    }

    /// The color at pixel `(x, y)`.
    pub open spec fn color_at(&self, x: int, y: int) -> u32 {
        self.buffer@[self.cell(x, y)]
    }

    /// The depth at pixel `(x, y)`.
    pub open spec fn depth_at(&self, x: int, y: int) -> i64 {
        self.z_buffer@[self.cell(x, y)]
    }

    /// A fresh buffer of the given dimensions, black, with every depth cell
    /// at the far value.
    pub fn new(width: usize, height: usize) -> (r: ScreenBuffer)
        requires
            width * height <= usize::MAX,
        ensures
            r.wf(),
            r.spec_width() == width,
            r.spec_height() == height,
            forall|i: int| 0 <= i < r.buffer@.len() ==> (#[trigger] r.buffer@[i]) == 0,
            forall|i: int| 0 <= i < r.z_buffer@.len() ==> (#[trigger] r.z_buffer@[i]) == Z_FAR,
    {
        let n = width * height;
        let mut buffer: Vec<u32> = Vec::new();
        let mut z_buffer: Vec<i64> = Vec::new();
        let mut i: usize = 0;
        while i < n
            invariant
                i <= n,
                buffer@.len() == i,
                z_buffer@.len() == i,
                forall|j: int| 0 <= j < i ==> (#[trigger] buffer@[j]) == 0,
                forall|j: int| 0 <= j < i ==> (#[trigger] z_buffer@[j]) == Z_FAR,
            decreases n - i,
        {
            buffer.push(0);
            z_buffer.push(Z_FAR);
            i += 1;
        }
        ScreenBuffer { buffer, z_buffer, width, height }
    }

    pub fn width(&self) -> (r: usize)
        ensures
            r as int == self.spec_width(),
    {
        self.width
    }

    pub fn height(&self) -> (r: usize)
        ensures
            r as int == self.spec_height(),
    {
        self.height
    }

    pub fn size(&self) -> (r: (usize, usize))
        ensures
            r.0 as int == self.spec_width(),
            r.1 as int == self.spec_height(),
    {
        (self.width, self.height)
    }

    /// The color buffer, one packed pixel per cell, row by row.
    pub fn buffer(&self) -> (r: &Vec<u32>)
        ensures
            r@ == self.buffer@,
    {
        &self.buffer
    }

    /// Whether a point lies on the screen rectangle: boundary pixels,
    /// row and column zero included, are on screen.
    pub fn inside_screen(&self, p: (isize, isize)) -> (r: bool)
        requires
            self.spec_width() <= i64::MAX,
            self.spec_height() <= i64::MAX,
        ensures
            r == (0 <= p.0 < self.spec_width() && 0 <= p.1 < self.spec_height()),
    {
        (0 <= p.0 && (p.0 as i64) < (self.width as i64)) && (0 <= p.1 && (p.1 as i64)
            < (self.height as i64))
    }

    pub fn outside_screen(&self, p: (isize, isize)) -> (r: bool)
        requires
            self.spec_width() <= i64::MAX,
            self.spec_height() <= i64::MAX,
        ensures
            r == !(0 <= p.0 < self.spec_width() && 0 <= p.1 < self.spec_height()),
    {
        !self.inside_screen(p)
    }

    /// Fills every color cell with `color` and resets every depth cell to
    /// the far value.
    pub fn clear(&mut self, color: u32)
        requires
            old(self).wf(),
        ensures
            final(self).wf(),
            final(self).spec_width() == old(self).spec_width(),
            final(self).spec_height() == old(self).spec_height(),
            forall|i: int|
                0 <= i < final(self).buffer@.len() ==> (#[trigger] final(self).buffer@[i]) == color,
            forall|i: int|
                0 <= i < final(self).z_buffer@.len() ==> (#[trigger] final(self).z_buffer@[i])
                    == Z_FAR,
    {
        let n = self.buffer.len();
        let mut i: usize = 0;
        while i < n
            invariant
                self.wf(),
                n == self.buffer@.len(),
                self.width == old(self).width,
                self.height == old(self).height,
                i <= n,
                forall|j: int| 0 <= j < i ==> (#[trigger] self.buffer@[j]) == color,
                forall|j: int| 0 <= j < i ==> (#[trigger] self.z_buffer@[j]) == Z_FAR,
            decreases n - i,
        {
            self.buffer[i] = color;
            self.z_buffer[i] = Z_FAR;
            i += 1;
        }
    }

    /// Writes `value` at pixel `(x, y)` when it is on the screen; reports
    /// whether it was.
    pub fn set_pixel(&mut self, pixel: (usize, usize), value: u32) -> (r: bool)
        requires
            old(self).wf(),
        ensures
            final(self).wf(),
            final(self).spec_width() == old(self).spec_width(),
            final(self).spec_height() == old(self).spec_height(),
            final(self).z_buffer@ == old(self).z_buffer@,
            r == (pixel.0 < old(self).spec_width() && pixel.1 < old(self).spec_height()),
            r ==> final(self).buffer@ == old(self).buffer@.update(
                old(self).cell(pixel.0 as int, pixel.1 as int),
                value,
            ),
            !r ==> final(self).buffer@ == old(self).buffer@,
    {
        let (x, y) = pixel;
        if x >= self.width || y >= self.height {
            return false;
        }
        proof {
            lemma_cell_in_range(self.width as int, self.height as int, x as int, y as int);
        }
        let _len = self.buffer.len();
        let idx = y * self.width + x;
        self.buffer[idx] = value;
        true
    }

    /// As `set_pixel`, for signed coordinates: a negative coordinate is off
    /// screen.
    pub fn set_pixel_i(&mut self, pixel: (isize, isize), value: u32) -> (r: bool)
        requires
            old(self).wf(),
        ensures
            final(self).wf(),
            final(self).spec_width() == old(self).spec_width(),
            final(self).spec_height() == old(self).spec_height(),
            final(self).z_buffer@ == old(self).z_buffer@,
            r == (0 <= pixel.0 < old(self).spec_width() && 0 <= pixel.1 < old(
                self,
            ).spec_height()),
            r ==> final(self).buffer@ == old(self).buffer@.update(
                old(self).cell(pixel.0 as int, pixel.1 as int),
                value,
            ),
            !r ==> final(self).buffer@ == old(self).buffer@,
    {
        if pixel.0 < 0 || pixel.1 < 0 {
            false
        } else {
            self.set_pixel((pixel.0 as usize, pixel.1 as usize), value)
        }
    }

    /// Offers a fragment of color `value` at depth `z` to pixel `(x, y)`:
    /// the cell takes it exactly when it is strictly nearer than what the
    /// cell holds (`depth_write`). Reports whether the fragment landed.
    pub fn set_pixel_z(&mut self, x: usize, y: usize, value: u32, z: i64) -> (r: bool)
        requires
            old(self).wf(),
            x < old(self).spec_width(),
            y < old(self).spec_height(),
        ensures
            final(self).wf(),
            final(self).spec_width() == old(self).spec_width(),
            final(self).spec_height() == old(self).spec_height(),
            ({
                let cell = old(self).cell(x as int, y as int);
                let (c, d) = depth_write(old(self).buffer@[cell], old(self).z_buffer@[cell], value, z);
                &&& final(self).buffer@ == old(self).buffer@.update(cell, c)
                &&& final(self).z_buffer@ == old(self).z_buffer@.update(cell, d)
                &&& r == (z < old(self).z_buffer@[cell])
            }),
    {
        proof {
            lemma_cell_in_range(self.width as int, self.height as int, x as int, y as int);
        }
        let _len = self.buffer.len();
        let idx = y * self.width + x;
        if z < self.z_buffer[idx] {
            self.z_buffer[idx] = z;
            self.buffer[idx] = value;
            proof {
                assert(final(self).buffer@ =~= old(self).buffer@.update(
                    old(self).cell(x as int, y as int),
                    value,
                ));
            }
            true
        } else {
            proof {
                assert(final(self).buffer@ =~= old(self).buffer@.update(
                    old(self).cell(x as int, y as int),
                    old(self).buffer@[old(self).cell(x as int, y as int)],
                ));
                assert(final(self).z_buffer@ =~= old(self).z_buffer@.update(
                    old(self).cell(x as int, y as int),
                    old(self).z_buffer@[old(self).cell(x as int, y as int)],
                ));
            }
            false
        }
    }
}

/// A pixel inside the screen rectangle indexes inside the buffers.
proof fn lemma_cell_in_range(w: int, h: int, x: int, y: int)
    by (nonlinear_arith)
    requires
        0 <= x < w,
        0 <= y < h,
    ensures
        0 <= y * w + x < w * h,
{
}


/// The coordinate bound under which line clipping arithmetic stays exact
/// (2^26 raw units).
pub const CLIP_BOUND: i64 = 0x400_0000;

/// Where a point outside a `w` by `h` screen moves when re-projected along
/// a line of direction `(dx, dy)` to the nearest boundary intersection:
/// a point on a degenerate line stays; a vertical line moves to the `y`
/// boundary, a horizontal one to the `x` boundary; otherwise the offending
/// coordinate lands exactly on the boundary and the other follows the slope
/// with truncating division. A point that cannot be brought in stays where
/// it is and the line is later skipped.
pub open spec fn bring_inside_spec(w: int, h: int, p: (int, int), dx: int, dy: int) -> (int, int) {
    let below = p.1 < 0;
    let above = p.1 >= h;
    let left = p.0 < 0;
    let right = p.0 >= w;
    if dx == 0 && dy == 0 {
        p
    } else if dx == 0 {
        if left || right {
            p
        } else if below {
            (p.0, 0)
        } else if above {
            (p.0, h - 1)
        } else {
            p
        }
    } else if dy == 0 && (above || below) {
        p
    } else if left || right {
        let nx: int = if left {
            0
        } else {
            w - 1
        };
        (nx, p.1 + tdiv((nx - p.0) * dy, dx))
    } else if above || below {
        let ny: int = if below {
            0
        } else {
            h - 1
        };
        (p.0 + tdiv((ny - p.1) * dx, dy), ny)
    } else {
        p
    }
}

/// A point left of the screen on a non-vertical, non-horizontal-and-off
/// line is brought exactly onto the left edge; the other edges follow by
/// the same arms of `bring_inside_spec`.
pub proof fn lemma_bring_inside_left_edge(w: int, h: int, p: (int, int), dx: int, dy: int)
    requires
        p.0 < 0,
        dx != 0,
        !(dy == 0 && (p.1 < 0 || p.1 >= h)),
    ensures
        bring_inside_spec(w, h, p, dx, dy).0 == 0,
{
}

impl ScreenBuffer {
    /// Attempts to bring a point inside the screen along the line through it
    /// with direction `(dx, dy)`, exactly as `bring_inside_spec` says.
    pub fn bring_inside(&self, p: (i64, i64), dx: i64, dy: i64) -> (r: (i64, i64))
        requires
            1 <= self.spec_width() <= CLIP_BOUND,
            1 <= self.spec_height() <= CLIP_BOUND,
            abs_int(p.0 as int) <= CLIP_BOUND as int,
            abs_int(p.1 as int) <= CLIP_BOUND as int,
            abs_int(dx as int) <= 2 * CLIP_BOUND as int,
            abs_int(dy as int) <= 2 * CLIP_BOUND as int,
        ensures
            (r.0 as int, r.1 as int) == bring_inside_spec(
                self.spec_width(),
                self.spec_height(),
                (p.0 as int, p.1 as int),
                dx as int,
                dy as int,
            ),
    {
        let w = self.width as i64;
        let h = self.height as i64;
        let below = p.1 < 0;
        let above = p.1 >= h;
        let left = p.0 < 0;
        let right = p.0 >= w;
        if dx == 0 && dy == 0 {
            return p;
        }
        if dx == 0 {
            if left || right {
                return p;
            }
            if below {
                return (p.0, 0);
            }
            if above {
                return (p.0, h - 1);
            }
            return p;
        }
        if dy == 0 && (above || below) {
            return p;
        }
        if left || right {
            let nx: i64 = if left {
                0
            } else {
                w - 1
            };
            proof {
                crate::fixed::lemma_abs_mul(nx - p.0, dy as int, 134217728, 134217728);
                crate::fixed::lemma_tdiv_abs_any((nx - p.0) * dy, dx as int, 18014398509481984);
            }
            let ny: i128 = p.1 as i128 + ((nx as i128 - p.0 as i128) * (dy as i128)) / (dx
                as i128);
            return (nx, ny as i64);
        }
        if above || below {
            let ny: i64 = if below {
                0
            } else {
                h - 1
            };
            proof {
                crate::fixed::lemma_abs_mul(ny - p.1, dx as int, 134217728, 134217728);
                crate::fixed::lemma_tdiv_abs_any((ny - p.1) * dx, dy as int, 18014398509481984);
            }
            let nx: i128 = p.0 as i128 + ((ny as i128 - p.1 as i128) * (dx as i128)) / (dy
                as i128);
            return (nx as i64, ny);
        }
        p
    }
}


/// Whether a point lies on a `w` by `h` screen.
pub open spec fn on_screen_spec(w: int, h: int, pt: (int, int)) -> bool {
    0 <= pt.0 < w && 0 <= pt.1 < h
}

/// One pixel write: the buffer with `pt` set to `color` when it is on
/// screen, unchanged otherwise.
pub open spec fn write1(b: Seq<u32>, w: int, h: int, pt: (int, int), color: u32) -> Seq<u32> {
    if on_screen_spec(w, h, pt) {
        b.update(pt.1 * w + pt.0, color)
    } else {
        b
    }
}

/// The buffer after writing a sequence of pixels in order.
pub open spec fn write_pixels(b: Seq<u32>, w: int, h: int, pts: Seq<(int, int)>, color: u32) -> Seq<
    u32,
>
    decreases pts.len(),
{
    if pts.len() == 0 {
        b
    } else {
        write_pixels(write1(b, w, h, pts.first(), color), w, h, pts.drop_first(), color)
    }
}

/// The sign of an integer, as a unit step.
pub open spec fn sign_of(d: int) -> int {
    if d > 0 {
        1
    } else if d < 0 {
        -1
    } else {
        0
    }
}

/// The points the Bresenham walk visits: `k` steps from `(x, y)` with error
/// accumulator `e`, major extent `dxa`, minor extent `dya`, unit steps `sx`
/// and `sy`, stepping the minor axis exactly when the accumulator is
/// nonnegative. `swapped` names the steep case, where `y` is the major axis.
pub open spec fn bres_steps(
    x: int,
    y: int,
    e: int,
    dxa: int,
    dya: int,
    sx: int,
    sy: int,
    swapped: bool,
    k: nat,
) -> Seq<(int, int)>
    decreases k,
{
    if k == 0 {
        Seq::empty()
    } else if e >= 0 {
        seq![(x, y)] + bres_steps(
            x + sx,
            y + sy,
            e + 2 * dya - 2 * dxa,
            dxa,
            dya,
            sx,
            sy,
            swapped,
            (k - 1) as nat,
        )
    } else if swapped {
        seq![(x, y)] + bres_steps(x, y + sy, e + 2 * dya, dxa, dya, sx, sy, swapped, (k - 1) as nat)
    } else {
        seq![(x, y)] + bres_steps(x + sx, y, e + 2 * dya, dxa, dya, sx, sy, swapped, (k - 1) as nat)
    }
}

/// Lexicographic order on points: the canonical direction of a line.
pub open spec fn lex_le(p: (int, int), q: (int, int)) -> bool {
    p.0 < q.0 || (p.0 == q.0 && p.1 <= q.1)
}

/// The pixels a clipped Bresenham line between `p1` and `p2` covers, as a
/// sequence: the endpoints are put in a canonical order, each endpoint
/// outside the screen is brought to its boundary intersection, a line still
/// ending off screen is dropped, and the walk runs along the major axis
/// with the final endpoint plotted last.
pub open spec fn line_pixels(w: int, h: int, p1: (int, int), p2: (int, int)) -> Seq<(int, int)> {
    let a = if lex_le(p1, p2) {
        p1
    } else {
        p2
    };
    let b = if lex_le(p1, p2) {
        p2
    } else {
        p1
    };
    let dxl = b.0 - a.0;
    let dyl = b.1 - a.1;
    let a2 = if on_screen_spec(w, h, a) {
        a
    } else {
        bring_inside_spec(w, h, a, dxl, dyl)
    };
    let b2 = if on_screen_spec(w, h, b) {
        b
    } else {
        bring_inside_spec(w, h, b, dxl, dyl)
    };
    if !on_screen_spec(w, h, a2) || !on_screen_spec(w, h, b2) {
        Seq::empty()
    } else {
        let ddx = b2.0 - a2.0;
        let ddy = b2.1 - a2.1;
        let dxa = abs_int(ddx);
        let dya = abs_int(ddy);
        let sx = sign_of(ddx);
        let sy = sign_of(ddy);
        if dya > dxa {
            bres_steps(a2.0, a2.1, 2 * dxa - dya, dya, dxa, sx, sy, true, dya as nat) + seq![b2]
        } else {
            bres_steps(a2.0, a2.1, 2 * dya - dxa, dxa, dya, sx, sy, false, dxa as nat) + seq![b2]
        }
    }
}

/// Line drawing is symmetric: the pixel sequence from `p1` to `p2` is the
/// pixel sequence from `p2` to `p1`, because the walk runs between the
/// canonically ordered endpoints whichever way they are given.
pub proof fn lemma_line_pixels_symmetric(w: int, h: int, p1: (int, int), p2: (int, int))
    ensures
        line_pixels(w, h, p1, p2) == line_pixels(w, h, p2, p1),
{
    if p1 == p2 {
    } else {
        assert(lex_le(p1, p2) <==> !lex_le(p2, p1));
    }
}

impl ScreenBuffer {
    /// Whether a point lies on the screen, for wide signed coordinates.
    fn on_screen(&self, pt: (i64, i64)) -> (r: bool)
        requires
            self.spec_width() <= i64::MAX,
            self.spec_height() <= i64::MAX,
        ensures
            r == on_screen_spec(self.spec_width(), self.spec_height(), (pt.0 as int, pt.1 as int)),
    {
        0 <= pt.0 && pt.0 < self.width as i64 && 0 <= pt.1 && pt.1 < self.height as i64
    }

    /// Draws the clipped Bresenham line between `p1` and `p2`: exactly the
    /// pixels of `line_pixels` take `color`, in order; the depth buffer and
    /// everything off the line are untouched. The pixel set is the same for
    /// either argument order (`lemma_line_pixels_symmetric`).
    #[verifier::rlimit(100)]
    pub fn draw_line(&mut self, p1: (i64, i64), p2: (i64, i64), color: u32)
        requires
            old(self).wf(),
            1 <= old(self).spec_width() <= CLIP_BOUND,
            1 <= old(self).spec_height() <= CLIP_BOUND,
            abs_int(p1.0 as int) <= CLIP_BOUND as int,
            abs_int(p1.1 as int) <= CLIP_BOUND as int,
            abs_int(p2.0 as int) <= CLIP_BOUND as int,
            abs_int(p2.1 as int) <= CLIP_BOUND as int,
        ensures
            final(self).wf(),
            final(self).spec_width() == old(self).spec_width(),
            final(self).spec_height() == old(self).spec_height(),
            final(self).z_buffer@ == old(self).z_buffer@,
            final(self).buffer@ == write_pixels(
                old(self).buffer@,
                old(self).spec_width(),
                old(self).spec_height(),
                line_pixels(
                    old(self).spec_width(),
                    old(self).spec_height(),
                    (p1.0 as int, p1.1 as int),
                    (p2.0 as int, p2.1 as int),
                ),
                color,
            ),
    {
        let ghost w = self.spec_width();
        let ghost h = self.spec_height();
        let ghost lp = line_pixels(w, h, (p1.0 as int, p1.1 as int), (p2.0 as int, p2.1 as int));
        let lex = p1.0 < p2.0 || (p1.0 == p2.0 && p1.1 <= p2.1);
        let a = if lex {
            p1
        } else {
            p2
        };
        let b = if lex {
            p2
        } else {
            p1
        };
        let dxl = b.0 - a.0;
        let dyl = b.1 - a.1;
        let a2 = if self.on_screen(a) {
            a
        } else {
            self.bring_inside(a, dxl, dyl)
        };
        let b2 = if self.on_screen(b) {
            b
        } else {
            self.bring_inside(b, dxl, dyl)
        };
        if !self.on_screen(a2) || !self.on_screen(b2) {
            proof {
                assert(lp =~= Seq::<(int, int)>::empty());
            }
            return ;
        }
        let ddx = b2.0 - a2.0;
        let ddy = b2.1 - a2.1;
        let dxa0 = if ddx < 0 {
            -ddx
        } else {
            ddx
        };
        let dya0 = if ddy < 0 {
            -ddy
        } else {
            ddy
        };
        let sx: i64 = if ddx > 0 {
            1
        } else if ddx < 0 {
            -1
        } else {
            0
        };
        let sy: i64 = if ddy > 0 {
            1
        } else if ddy < 0 {
            -1
        } else {
            0
        };
        let swapped = dya0 > dxa0;
        let dxa = if swapped {
            dya0
        } else {
            dxa0
        };
        let dya = if swapped {
            dxa0
        } else {
            dya0
        };
        let mut x = a2.0;
        let mut y = a2.1;
        let mut e: i64 = 2 * dya - dxa;
        let mut step: i64 = 0;
        proof {
            assert(lp == bres_steps(
                x as int,
                y as int,
                e as int,
                dxa as int,
                dya as int,
                sx as int,
                sy as int,
                swapped,
                dxa as nat,
            ) + seq![(b2.0 as int, b2.1 as int)]);
        }
        while step < dxa
            invariant
                self.wf(),
                self.width == old(self).width,
                self.height == old(self).height,
                w == self.spec_width(),
                h == self.spec_height(),
                1 <= w <= CLIP_BOUND,
                1 <= h <= CLIP_BOUND,
                self.z_buffer@ == old(self).z_buffer@,
                0 <= step <= dxa,
                0 <= dya <= dxa <= CLIP_BOUND,
                abs_int(sx as int) <= 1,
                abs_int(sy as int) <= 1,
                abs_int(x as int) <= CLIP_BOUND as int + step,
                abs_int(y as int) <= CLIP_BOUND as int + step,
                -2 * dxa <= e <= 2 * dya,
                abs_int(b2.0 as int) <= CLIP_BOUND as int,
                abs_int(b2.1 as int) <= CLIP_BOUND as int,
                write_pixels(old(self).buffer@, w, h, lp, color) == write_pixels(
                    self.buffer@,
                    w,
                    h,
                    bres_steps(
                        x as int,
                        y as int,
                        e as int,
                        dxa as int,
                        dya as int,
                        sx as int,
                        sy as int,
                        swapped,
                        (dxa - step) as nat,
                    ) + seq![(b2.0 as int, b2.1 as int)],
                    color,
                ),
            decreases dxa - step,
        {
            let ghost rest = bres_steps(
                x as int,
                y as int,
                e as int,
                dxa as int,
                dya as int,
                sx as int,
                sy as int,
                swapped,
                (dxa - step) as nat,
            );
            let ghost buf0 = self.buffer@;
            if 0 <= x && x < self.width as i64 && 0 <= y && y < self.height as i64 {
                self.set_pixel((x as usize, y as usize), color);
            }
            proof {
                assert(self.buffer@ == write1(buf0, w, h, (x as int, y as int), color));
                let tail = bres_steps(
                    if e >= 0 || !swapped {
                        x + sx
                    } else {
                        x as int
                    },
                    if e >= 0 || swapped {
                        y + sy
                    } else {
                        y as int
                    },
                    if e >= 0 {
                        e + 2 * dya - 2 * dxa
                    } else {
                        e + 2 * dya
                    },
                    dxa as int,
                    dya as int,
                    sx as int,
                    sy as int,
                    swapped,
                    (dxa - step - 1) as nat,
                );
                assert(rest == seq![(x as int, y as int)] + tail);
                assert((rest + seq![(b2.0 as int, b2.1 as int)]).first() == (x as int, y as int));
                assert((rest + seq![(b2.0 as int, b2.1 as int)]).drop_first() =~= tail + seq![
                    (b2.0 as int, b2.1 as int),
                ]);
            }
            if e >= 0 {
                x = x + sx;
                y = y + sy;
                e = e + 2 * dya - 2 * dxa;
            } else {
                if swapped {
                    y = y + sy;
                } else {
                    x = x + sx;
                }
                e = e + 2 * dya;
            }
            step += 1;
        }
        let ghost buf0 = self.buffer@;
        if 0 <= b2.0 && b2.0 < self.width as i64 && 0 <= b2.1 && b2.1 < self.height as i64 {
            self.set_pixel((b2.0 as usize, b2.1 as usize), color);
        }
        proof {
            assert(self.buffer@ == write1(buf0, w, h, (b2.0 as int, b2.1 as int), color));
            let last = seq![(b2.0 as int, b2.1 as int)];
            assert(bres_steps(
                x as int,
                y as int,
                e as int,
                dxa as int,
                dya as int,
                sx as int,
                sy as int,
                swapped,
                0nat,
            ) + last =~= last);
            assert(last.first() == (b2.0 as int, b2.1 as int));
            assert(last.drop_first() =~= Seq::<(int, int)>::empty());
            assert(write_pixels(buf0, w, h, last, color) == write_pixels(
                write1(buf0, w, h, (b2.0 as int, b2.1 as int), color),
                w,
                h,
                last.drop_first(),
                color,
            ));
            assert(write_pixels(
                write1(buf0, w, h, (b2.0 as int, b2.1 as int), color),
                w,
                h,
                Seq::<(int, int)>::empty(),
                color,
            ) == write1(buf0, w, h, (b2.0 as int, b2.1 as int), color));
        }
    }
}

} // verus!

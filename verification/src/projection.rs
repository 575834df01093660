//! Projection-plane to screen mapping: a projected point on the camera's
//! image plane is moved into normalized device coordinates and then onto
//! the pixel grid, with the floor rounding of the final cast.

use vstd::prelude::*;
use crate::fixed::{
    abs_int, fx_div_spec, fx_mul_spec, fx_div, fx_floor, fx_mul, FX_ONE, SCALE,
};
use crate::geometry::Point2;
use crate::raster::ProjectedPoint;

verus! {

/// The normalized device coordinate of a projection-plane coordinate `p`
/// on a plane of extent `proj`: `(p + proj / 2) / proj`, in fixed point.
pub open spec fn ndc_spec(p: int, proj: int) -> int {
    fx_div_spec(p + proj * 32768, proj * 65536)
}

/// The screen column of projection-plane coordinate `px`: its normalized
/// coordinate scaled by the screen width, rounded down to a pixel.
pub open spec fn screen_x_spec(px: int, proj_w: int, screen_w: int) -> int {
    fx_mul_spec(ndc_spec(px, proj_w), screen_w * 65536) / (SCALE as int)
}

/// The screen row of projection-plane coordinate `py`: the normalized
/// coordinate is flipped (screen rows grow downward) and scaled by the
/// screen height, rounded down to a pixel.
pub open spec fn screen_y_spec(py: int, proj_h: int, screen_h: int) -> int {
    fx_mul_spec(FX_ONE as int - ndc_spec(py, proj_h), screen_h * 65536) / (SCALE as int)
}

/// Maps a projection-plane point onto the pixel grid of a screen:
/// normalized device coordinates first, then pixels, exactly as
/// `screen_x_spec` and `screen_y_spec` say.
pub fn projection_to_screen(p: Point2, proj_size: (usize, usize), screen_size: (usize, usize)) -> (r:
    (i64, i64))
    requires
        1 <= proj_size.0 <= 1024,
        1 <= proj_size.1 <= 1024,
        screen_size.0 <= 8192,
        screen_size.1 <= 8192,
        abs_int(p.x as int) <= 0x400_0000,
        abs_int(p.y as int) <= 0x400_0000,
    ensures
        r.0 as int == screen_x_spec(p.x as int, proj_size.0 as int, screen_size.0 as int),
        r.1 as int == screen_y_spec(p.y as int, proj_size.1 as int, screen_size.1 as int),
{
    let pw: i64 = (proj_size.0 as i64) * SCALE;
    let ph: i64 = (proj_size.1 as i64) * SCALE;
    let half_w: i64 = (proj_size.0 as i64) * 32768;
    let half_h: i64 = (proj_size.1 as i64) * 32768;
    proof {
        crate::fixed::lemma_abs_mul(p.x as int + half_w as int, SCALE as int, 201326592, 65536);
        crate::fixed::lemma_abs_mul(p.y as int + half_h as int, SCALE as int, 201326592, 65536);
        crate::fixed::lemma_tdiv_abs_any(
            (p.x as int + half_w as int) * (SCALE as int),
            pw as int,
            13194139533312,
        );
        crate::fixed::lemma_tdiv_abs_any(
            (p.y as int + half_h as int) * (SCALE as int),
            ph as int,
            13194139533312,
        );
    }
    let ndc_x = fx_div(p.x + half_w, pw);
    let ndc_y = fx_div(p.y + half_h, ph);
    let sw: i64 = (screen_size.0 as i64) * SCALE;
    let sh: i64 = (screen_size.1 as i64) * SCALE;
    proof {
        crate::fixed::lemma_fx_mul_abs(ndc_x as int, sw as int, 13194139533312, 536870912);
        crate::fixed::lemma_fx_mul_abs(
            FX_ONE as int - ndc_y as int,
            sh as int,
            13194139598848,
            536870912,
        );
    }
    let sx = fx_floor(fx_mul(ndc_x, sw));
    let sy = fx_floor(fx_mul(FX_ONE - ndc_y, sh));
    (sx, sy)
}

/// Maps a projected point with depth onto the pixel grid, keeping its
/// depth for the z-buffer.
pub fn projected_point_to_screen(
    x: i64,
    y: i64,
    z: i64,
    proj_size: (usize, usize),
    screen_size: (usize, usize),
) -> (r: ProjectedPoint)
    requires
        1 <= proj_size.0 <= 1024,
        1 <= proj_size.1 <= 1024,
        screen_size.0 <= 8192,
        screen_size.1 <= 8192,
        abs_int(x as int) <= 0x400_0000,
        abs_int(y as int) <= 0x400_0000,
    ensures
        r.x as int == screen_x_spec(x as int, proj_size.0 as int, screen_size.0 as int),
        r.y as int == screen_y_spec(y as int, proj_size.1 as int, screen_size.1 as int),
        r.z == z,
{
    let (sx, sy) = projection_to_screen(Point2 { x, y }, proj_size, screen_size);
    ProjectedPoint { x: sx, y: sy, z }
}

} // verus!

use softrender::fixed::{fx_div, fx_from_int, fx_mul, fx_recip, FX_ONE, SCALE};
use softrender::geometry::{isqrt_u64, Point2, Point3, Point4};
use softrender::loader::{conv_vec_to_usize, custom_process, polygons_in_range, rgb8_to_u8_vec, LoadError, Polygon};
use softrender::matrix::{make_rotation_matrix, Matrix2, Matrix3, Matrix4};
use softrender::mesh::{compute_center, compute_extremes, compute_size, Object};
use softrender::projection::{projected_point_to_screen, projection_to_screen};
use softrender::raster::{ProjectedPoint, ProjectedTriangle};
use softrender::scene::{frame_micros, render_due, ObjectOrientation};
use softrender::screen::ScreenBuffer;
use softrender::visibility::facing_camera;

fn fx(v: f64) -> i64 {
    (v * SCALE as f64).round() as i64
}

#[test]
fn fixed_point_arithmetic_is_exact() {
    assert_eq!(fx_from_int(3), 3 * SCALE);
    assert_eq!(fx_mul(fx(2.0), fx(3.5)), fx(7.0));
    assert_eq!(fx_mul(fx(-2.0), fx(3.5)), fx(-7.0));
    assert_eq!(fx_div(fx(7.0), fx(2.0)), fx(3.5));
    assert_eq!(fx_recip(fx(4.0)), fx(0.25));
}

#[test]
fn isqrt_brackets_its_argument() {
    for n in [0u64, 1, 2, 3, 4, 15, 16, 17, 1_000_000, u64::MAX] {
        let r = isqrt_u64(n);
        assert!((r as u128) * (r as u128) <= n as u128);
        assert!((n as u128) < (r as u128 + 1) * (r as u128 + 1));
    }
    assert_eq!(isqrt_u64(16), 4);
    assert_eq!(isqrt_u64(24), 4);
    assert_eq!(isqrt_u64(25), 5);
}

#[test]
fn point_arithmetic() {
    let a = Point3::new([fx(1.0), fx(2.0), fx(3.0)]);
    let b = Point3::new([fx(4.0), fx(-1.0), fx(0.5)]);
    let s = a.add_point(b);
    assert_eq!(s.coords(), [fx(5.0), fx(1.0), fx(3.5)]);
    let d = a.sub_point(b);
    assert_eq!(d.coords(), [fx(-3.0), fx(3.0), fx(2.5)]);
    assert_eq!(a.dot(b), fx(4.0) - fx(2.0) + fx(1.5));
    let c = a.cross(b);
    // (2*0.5 - 3*(-1), -(1*0.5 - 3*4), 1*(-1) - 2*4)
    assert_eq!(c.coords(), [fx(4.0), fx(11.5), fx(-9.0)]);
    assert_eq!(a.scale(fx(2.0)).coords(), [fx(2.0), fx(4.0), fx(6.0)]);
}

#[test]
fn magnitude_of_pythagorean_triple_is_exact() {
    let p = Point3::new([fx(3.0), fx(4.0), 0]);
    assert_eq!(p.magnitude(), fx(5.0));
    let n = p.normalize();
    // 1/5 in fixed point truncates to 13107; 3*13107 and 4*13107 remain exact
    let f = fx_recip(fx(5.0));
    assert_eq!(n.coords(), [fx_mul(fx(3.0), f), fx_mul(fx(4.0), f), 0]);
    // within a tolerance of the exact direction (0.6, 0.8, 0)
    assert!((n.coords()[0] - fx(0.6)).abs() <= 2);
    assert!((n.coords()[1] - fx(0.8)).abs() <= 2);
}

#[test]
fn homogeneous_round_trip_is_identity() {
    let p = Point3::new([fx(1.25), fx(-2.5), fx(10.0)]);
    let h = p.euc_to_hom();
    assert_eq!(h.coords(), [fx(1.25), fx(-2.5), fx(10.0), FX_ONE]);
    let back = h.hom_to_euc();
    assert_eq!(back.coords(), p.coords());
}

#[test]
fn point_at_infinity_is_rejected() {
    let h = Point4::new([fx(1.0), fx(2.0), fx(3.0), 0]);
    assert!(h.checked_hom_to_euc().is_none());
    let ok = Point4::new([fx(1.0), fx(2.0), fx(3.0), fx(2.0)]);
    let e = ok.checked_hom_to_euc().unwrap();
    assert_eq!(e.coords(), [fx(0.5), fx(1.0), fx(1.5)]);
}

#[test]
fn perspective_divide_divides_by_last_component() {
    let h = Point3::new([fx(6.0), fx(-3.0), fx(3.0)]);
    let p: Point2 = h.hom_to_euc();
    assert_eq!(p.coords(), [fx(2.0), fx(-1.0)]);
}

#[test]
fn determinant_2x2() {
    let m = Matrix2::new([[fx(3.0), fx(1.0)], [fx(2.0), fx(4.0)]]);
    assert_eq!(m.determinant(), fx(10.0));
}

#[test]
fn determinant_3x3() {
    let m = Matrix3::new([
        [fx(2.0), 0, 0],
        [0, fx(3.0), 0],
        [0, 0, fx(4.0)],
    ]);
    assert_eq!(m.determinant(), fx(24.0));
    let singular = Matrix3::new([
        [fx(1.0), fx(2.0), fx(3.0)],
        [fx(2.0), fx(4.0), fx(6.0)],
        [0, 0, fx(1.0)],
    ]);
    assert_eq!(singular.determinant(), 0);
    assert!(singular.checked_inverse().is_none());
}

#[test]
fn inverse_of_diagonal_matrix_is_exact() {
    let m = Matrix3::new([
        [fx(2.0), 0, 0],
        [0, fx(2.0), 0],
        [0, 0, fx(2.0)],
    ]);
    let inv = m.checked_inverse().unwrap();
    assert_eq!(inv.m, [
        [fx(0.5), 0, 0],
        [0, fx(0.5), 0],
        [0, 0, fx(0.5)],
    ]);
}

#[test]
fn inverse_times_matrix_is_identity_within_tolerance() {
    // a rotation-flavored matrix with determinant 1
    let m = Matrix3::new([
        [fx(1.0), fx(1.0), 0],
        [0, fx(1.0), 0],
        [0, 0, fx(1.0)],
    ]);
    let inv = m.checked_inverse().unwrap();
    let p = Point3::new([fx(1.0), fx(2.0), fx(3.0)]);
    let q = inv.mul_point(m.mul_point(p));
    for (got, want) in q.coords().iter().zip(p.coords().iter()) {
        assert!((got - want).abs() <= 2, "got {} want {}", got, want);
    }
    // and for a general well-conditioned matrix, within fixed-point tolerance
    let g = Matrix3::new([
        [fx(0.8), fx(-0.6), 0],
        [fx(0.6), fx(0.8), 0],
        [0, 0, fx(1.0)],
    ]);
    let ginv = g.checked_inverse().unwrap();
    let r = ginv.mul_point(g.mul_point(p));
    for (got, want) in r.coords().iter().zip(p.coords().iter()) {
        assert!((got - want).abs() <= 8, "got {} want {}", got, want);
    }
}

#[test]
fn minor_matrix_strikes_row_and_column() {
    let m = Matrix3::new([
        [1, 2, 3],
        [4, 5, 6],
        [7, 8, 9],
    ]);
    let minor = m.minor_matrix(0, 0);
    assert_eq!(minor.m, [[5, 6], [8, 9]]);
    let minor = m.minor_matrix(1, 2);
    assert_eq!(minor.m, [[1, 3], [4, 6]]);
}

#[test]
fn transpose_and_signs() {
    let m = Matrix3::new([
        [1, 2, 3],
        [4, 5, 6],
        [7, 8, 9],
    ]);
    assert_eq!(m.transpose().m, [[1, 4, 7], [2, 5, 8], [3, 6, 9]]);
    assert_eq!(m.apply_alternating_signs().m, [[1, -2, 3], [-4, 5, -6], [7, -8, 9]]);
    assert_eq!(m.row(1), Some([4, 5, 6]));
    assert_eq!(m.row(3), None);
    assert_eq!(m.col(2), Some([3, 6, 9]));
}

#[test]
fn z_buffer_keeps_nearer_fragment_in_either_order() {
    const RED: u32 = 0xff0000;
    const BLUE: u32 = 0x0000ff;
    let mut a = ScreenBuffer::new(4, 4);
    a.set_pixel_z(1, 2, RED, fx(10.0));
    a.set_pixel_z(1, 2, BLUE, fx(5.0));
    let mut b = ScreenBuffer::new(4, 4);
    b.set_pixel_z(1, 2, BLUE, fx(5.0));
    b.set_pixel_z(1, 2, RED, fx(10.0));
    assert_eq!(a.buffer()[2 * 4 + 1], BLUE);
    assert_eq!(b.buffer()[2 * 4 + 1], BLUE);
}

#[test]
fn screen_buffer_bounds_and_clear() {
    let mut sb = ScreenBuffer::new(3, 2);
    assert_eq!(sb.size(), (3, 2));
    assert!(sb.set_pixel((2, 1), 7));
    assert!(!sb.set_pixel((3, 1), 7));
    assert!(!sb.set_pixel_i((-1, 0), 7));
    assert_eq!(sb.buffer()[1 * 3 + 2], 7);
    assert!(sb.inside_screen((1, 1)));
    assert!(sb.inside_screen((0, 0)));
    assert!(sb.inside_screen((2, 1)));
    assert!(sb.outside_screen((-1, 1)));
    assert!(sb.outside_screen((3, 1)));
    assert!(sb.outside_screen((1, 2)));
    sb.clear(0xf7ffff);
    assert!(sb.buffer().iter().all(|&p| p == 0xf7ffff));
}

#[test]
fn custom_process_interns_shared_vertices() {
    let positions = vec![[0i64, 0, 0], [fx(1.0), 0, 0], [0, fx(1.0), 0], [0, 0, fx(1.0)]];
    let normals: Vec<[i64; 3]> = Vec::new();
    let polygons = vec![
        Polygon::P(vec![0, 1, 2]),
        Polygon::P(vec![0, 2, 3]),
    ];
    let (vb, ib) = custom_process(positions, normals, polygons).unwrap();
    assert_eq!(ib.len(), 6);
    // vertices 0 and 2 are shared between the two triangles
    assert_eq!(vb.len(), 4);
    assert_eq!(ib, vec![0, 1, 2, 0, 2, 3]);
}

#[test]
fn custom_process_rejects_untriangulated_polygons() {
    let positions = vec![[0i64, 0, 0], [1, 0, 0], [2, 0, 0], [3, 0, 0]];
    let normals: Vec<[i64; 3]> = Vec::new();
    let polygons = vec![Polygon::P(vec![0, 1, 2, 3])];
    assert_eq!(custom_process(positions, normals, polygons).unwrap_err(), LoadError::Untriangulated);
}

#[test]
fn conv_vec_to_usize_converts_in_order() {
    assert_eq!(conv_vec_to_usize(vec![0i64, 5, 17]), vec![0usize, 5, 17]);
    assert_eq!(conv_vec_to_usize(Vec::new()), Vec::<usize>::new());
}

#[test]
fn rgb8_unpacks_three_bytes_per_pixel() {
    let buf = vec![0x112233u32, 0xff0000, 0x000000];
    let bytes = rgb8_to_u8_vec(&buf);
    assert_eq!(bytes, vec![0x11, 0x22, 0x33, 0xff, 0x00, 0x00, 0x00, 0x00, 0x00]);
}

#[test]
fn winding_order_flips_cull_decision() {
    let cam = Point3::new([0, 0, 0]);
    let v0 = Point3::new([fx(-1.0), fx(-1.0), fx(10.0)]);
    let v1 = Point3::new([fx(1.0), fx(-1.0), fx(10.0)]);
    let v2 = Point3::new([fx(0.0), fx(1.0), fx(10.0)]);
    // normal points along +z, away from a camera at the origin: culled
    assert!(!facing_camera(v0, v1, v2, cam));
    // reversing the winding order flips the decision
    assert!(facing_camera(v0, v2, v1, cam));
    // a camera behind the triangle sees the first winding instead
    let cam_behind = Point3::new([0, 0, fx(20.0)]);
    assert!(facing_camera(v0, v1, v2, cam_behind));
    assert!(!facing_camera(v0, v2, v1, cam_behind));
}

#[test]
fn scaling_by_one_is_an_exact_no_op() {
    let vertices = vec![
        Point3::new([fx(1.0), fx(2.0), fx(-1.0)]),
        Point3::new([fx(-3.0), fx(0.5), fx(4.0)]),
        Point3::new([fx(0.25), fx(-2.0), fx(1.5)]),
    ];
    let face_indexes = vec![vec![0usize, 1, 2]];
    let mut object = Object::new(vertices.clone(), face_indexes);
    let before_vertices = object.vertices().clone();
    let before_faces: Vec<Vec<Point3>> =
        object.faces().iter().map(|f| f.vertices().clone()).collect();
    object.scale(FX_ONE);
    assert_eq!(object.vertices(), &before_vertices);
    let after_faces: Vec<Vec<Point3>> =
        object.faces().iter().map(|f| f.vertices().clone()).collect();
    assert_eq!(after_faces, before_faces);
}

#[test]
fn scaling_doubles_vertices_and_rebuilds_faces() {
    let vertices = vec![
        Point3::new([fx(1.0), 0, 0]),
        Point3::new([0, fx(1.0), 0]),
        Point3::new([0, 0, fx(1.0)]),
    ];
    let face_indexes = vec![vec![0usize, 1, 2]];
    let mut object = Object::new(vertices, face_indexes);
    object.scale(fx(2.0));
    assert_eq!(object.vertices()[0].coords(), [fx(2.0), 0, 0]);
    assert_eq!(object.vertices()[1].coords(), [0, fx(2.0), 0]);
    assert_eq!(object.faces()[0].vertices()[2].coords(), [0, 0, fx(2.0)]);
}

#[test]
fn extremes_and_center_bracket_the_mesh() {
    let vertices = vec![
        Point3::new([fx(2.0), fx(-1.0), fx(3.0)]),
        Point3::new([fx(-4.0), fx(5.0), fx(1.0)]),
    ];
    let (lo, hi) = compute_extremes(&vertices);
    assert_eq!(lo.coords(), [fx(-4.0), fx(-1.0), fx(1.0)]);
    assert_eq!(hi.coords(), [fx(2.0), fx(5.0), fx(3.0)]);
    let size = compute_size(&vertices);
    assert_eq!(size, (fx(6.0), fx(6.0), fx(2.0)));
    let center = compute_center(&vertices);
    assert_eq!(center.coords(), [fx(-1.0), fx(2.0), fx(2.0)]);
}

#[test]
fn render_is_due_exactly_on_change() {
    let state = ObjectOrientation {
        position: Point3::new([0, 0, fx(4.0)]),
        rot_x: 0,
        rot_y: fx(0.5),
        rot_z: 0,
    };
    // the first frame always renders
    assert!(render_due(None, state, false));
    // an unchanged state with an unchanged camera does not
    assert!(!render_due(Some(state), state, false));
    // a camera change alone does
    assert!(render_due(Some(state), state, true));
    // a state change alone does
    let moved = ObjectOrientation { rot_y: fx(0.75), ..state };
    assert!(render_due(Some(state), moved, false));
}

#[test]
fn frame_interval_is_the_fps_reciprocal() {
    assert_eq!(frame_micros(30), 33_333);
    assert_eq!(frame_micros(1), 1_000_000);
    assert_eq!(frame_micros(60), 16_666);
}

#[test]
fn rotation_matrix_entries_follow_the_product_formulas() {
    // zero angles: sines 0, cosines 1 -- the identity rotation
    let r = make_rotation_matrix(0, FX_ONE, 0, FX_ONE, 0, FX_ONE);
    assert_eq!(r.m, [[FX_ONE, 0, 0], [0, FX_ONE, 0], [0, 0, FX_ONE]]);
    // a quarter turn about the second axis: sy = 1, cy = 0
    let r = make_rotation_matrix(0, FX_ONE, FX_ONE, 0, 0, FX_ONE);
    assert_eq!(r.m, [[0, 0, FX_ONE], [0, FX_ONE, 0], [-FX_ONE, 0, 0]]);
}

#[test]
fn matrix_product_against_identity_is_exact() {
    let id = Matrix3::new([[FX_ONE, 0, 0], [0, FX_ONE, 0], [0, 0, FX_ONE]]);
    let m = Matrix3::new([
        [fx(1.5), fx(-2.0), fx(3.0)],
        [fx(0.25), fx(4.0), fx(-1.0)],
        [fx(2.0), fx(0.5), fx(1.0)],
    ]);
    assert_eq!(id.mul(&m).m, m.m);
    assert_eq!(m.mul(&id).m, m.m);
    // scaling by two on the left doubles every entry
    let two = Matrix3::new([[fx(2.0), 0, 0], [0, fx(2.0), 0], [0, 0, fx(2.0)]]);
    assert_eq!(two.mul(&m).m[0], [fx(3.0), fx(-4.0), fx(6.0)]);
}

#[test]
fn inverse_2x2_is_exact_on_diagonals() {
    let m = Matrix2::new([[fx(2.0), 0], [0, fx(4.0)]]);
    let inv = m.checked_inverse().unwrap();
    assert_eq!(inv.m, [[fx(0.5), 0], [0, fx(0.25)]]);
    let singular = Matrix2::new([[fx(1.0), fx(2.0)], [fx(2.0), fx(4.0)]]);
    assert!(singular.checked_inverse().is_none());
}

#[test]
fn determinant_and_inverse_4x4() {
    let m = Matrix4::new([
        [fx(1.0), 0, 0, 0],
        [0, fx(2.0), 0, 0],
        [0, 0, fx(3.0), 0],
        [0, 0, 0, fx(4.0)],
    ]);
    assert_eq!(m.determinant(), fx(24.0));
    let inv = m.checked_inverse().unwrap();
    assert_eq!(inv.m[0][0], fx(1.0));
    assert_eq!(inv.m[1][1], fx(0.5));
    assert_eq!(inv.m[3][3], fx(0.25));
    assert_eq!(inv.m[0][1], 0);
    // a view-like matrix: rotation block plus translation column
    let v = Matrix4::new([
        [0, -FX_ONE, 0, fx(3.0)],
        [FX_ONE, 0, 0, fx(-2.0)],
        [0, 0, FX_ONE, fx(1.0)],
        [0, 0, 0, FX_ONE],
    ]);
    assert_eq!(v.determinant(), FX_ONE);
    let vi = v.checked_inverse().unwrap();
    // the inverse undoes rotation and translation: check one row
    assert_eq!(vi.m[0], [0, FX_ONE, 0, fx(2.0)]);
    let minor = v.minor_matrix(3, 3);
    assert_eq!(minor.m, [[0, -FX_ONE, 0], [FX_ONE, 0, 0], [0, 0, FX_ONE]]);
}

#[test]
fn polygon_validation_checks_every_index() {
    let good = vec![Polygon::P(vec![0, 1, 2]), Polygon::PN(vec![[1, 0], [2, 0], [0, 0]])];
    assert!(polygons_in_range(&good, 3, 1));
    let bad_position = vec![Polygon::P(vec![0, 1, 3])];
    assert!(!polygons_in_range(&bad_position, 3, 0));
    let bad_normal = vec![Polygon::PTN(vec![[0, 0, 0], [1, 0, 2], [2, 0, 0]])];
    assert!(!polygons_in_range(&bad_normal, 3, 2));
}

#[test]
fn clipping_brings_endpoints_onto_the_buffer_edge() {
    let sb = ScreenBuffer::new(10, 10);
    // a line from (-5,-5) to (5,5): the outside endpoint lands on the corner
    assert_eq!(sb.bring_inside((-5, -5), 10, 10), (0, 0));
    // the inside endpoint would be left alone
    assert_eq!(sb.bring_inside((5, 5), 10, 10), (5, 5));
    // a point right of the screen moves onto the right edge along its slope
    assert_eq!(sb.bring_inside((12, 3), 2, 1), (9, 2));
    // a point above a vertical line clamps straight down
    assert_eq!(sb.bring_inside((4, 17), 0, 3), (4, 9));
    // a horizontal line fully above the screen cannot come in
    assert_eq!(sb.bring_inside((4, 17), 5, 0), (4, 17));
}

#[test]
fn extremes_of_an_offset_mesh_do_not_include_the_origin() {
    let vertices = vec![
        Point3::new([fx(5.0), fx(5.0), fx(5.0)]),
        Point3::new([fx(7.0), fx(6.0), fx(8.0)]),
    ];
    let (lo, hi) = compute_extremes(&vertices);
    assert_eq!(lo.coords(), [fx(5.0), fx(5.0), fx(5.0)]);
    assert_eq!(hi.coords(), [fx(7.0), fx(6.0), fx(8.0)]);
    assert_eq!(compute_size(&vertices), (fx(2.0), fx(1.0), fx(3.0)));
    assert_eq!(compute_center(&vertices).coords(), [fx(6.0), fx(5.5), fx(6.5)]);
}

#[test]
fn line_drawing_is_symmetric_in_its_endpoints() {
    let mut a = ScreenBuffer::new(10, 10);
    a.draw_line((1, 1), (8, 5), 0xff00ff);
    let mut b = ScreenBuffer::new(10, 10);
    b.draw_line((8, 5), (1, 1), 0xff00ff);
    assert_eq!(a.buffer(), b.buffer());
    assert!(a.buffer().iter().filter(|&&p| p == 0xff00ff).count() >= 8);
    // a steep line, both orders
    let mut c = ScreenBuffer::new(10, 10);
    c.draw_line((2, 0), (4, 9), 0x00ff00);
    let mut d = ScreenBuffer::new(10, 10);
    d.draw_line((4, 9), (2, 0), 0x00ff00);
    assert_eq!(c.buffer(), d.buffer());
}

#[test]
fn clipped_line_stays_on_the_buffer() {
    let mut sb = ScreenBuffer::new(10, 10);
    sb.draw_line((-5, -5), (5, 5), 0xffffff);
    // the clipped endpoint lands on the corner and the diagonal is drawn
    for k in 0..=5i64 {
        assert_eq!(sb.buffer()[(k * 10 + k) as usize], 0xffffff, "pixel {}", k);
    }
    // nothing outside the diagonal's pixels was touched
    assert_eq!(sb.buffer().iter().filter(|&&p| p != 0).count(), 6);
    // a line wholly outside is skipped
    let mut empty = ScreenBuffer::new(10, 10);
    empty.draw_line((-5, 3), (-2, 8), 0xffffff);
    assert!(empty.buffer().iter().all(|&p| p == 0));
}

#[test]
fn normalize_size_scales_the_largest_dimension_to_target() {
    let vertices = vec![
        Point3::new([0, 0, 0]),
        Point3::new([fx(2.0), fx(1.0), fx(0.5)]),
    ];
    let mut object = Object::new(vertices, vec![vec![0usize, 0, 1]]);
    object.normalize_size(fx(5.0));
    // the factor is 5/2: the x extent becomes five, the rest follow
    assert_eq!(object.vertices()[1].coords(), [fx(5.0), fx(2.5), fx(1.25)]);
    assert_eq!(object.vertices()[0].coords(), [0, 0, 0]);
}

#[test]
fn adjugate_identity_holds_on_concrete_matrices() {
    // inverse times matrix within tolerance, for all three sizes
    let p = Point3::new([fx(1.0), fx(2.0), fx(3.0)]);
    let m2 = Matrix2::new([[fx(3.0), fx(1.0)], [fx(2.0), fx(4.0)]]);
    let i2 = m2.checked_inverse().unwrap();
    // (m2 * i2) applied by hand on the first basis vector
    let c0 = [
        softrender::fixed::fx_mul(m2.m[0][0], i2.m[0][0])
            + softrender::fixed::fx_mul(m2.m[0][1], i2.m[1][0]),
        softrender::fixed::fx_mul(m2.m[1][0], i2.m[0][0])
            + softrender::fixed::fx_mul(m2.m[1][1], i2.m[1][0]),
    ];
    assert!((c0[0] - FX_ONE).abs() <= 4);
    assert!(c0[1].abs() <= 4);
    let m4 = Matrix4::new([
        [fx(1.0), fx(0.5), 0, fx(2.0)],
        [0, fx(1.0), 0, fx(-1.0)],
        [0, 0, fx(1.0), fx(3.0)],
        [0, 0, 0, fx(1.0)],
    ]);
    let i4 = m4.checked_inverse().unwrap();
    // row 0 of i4 * m4 should be the first identity row, within tolerance
    for col in 0..4 {
        let mut acc: i64 = 0;
        for k in 0..4 {
            acc += softrender::fixed::fx_mul(i4.m[0][k], m4.m[k][col]);
        }
        let want = if col == 0 { FX_ONE } else { 0 };
        assert!((acc - want).abs() <= 4, "col {} acc {}", col, acc);
    }
    let _ = p;
}

#[test]
fn triangle_fill_resolves_overlap_by_depth_in_either_order() {
    let near = tri([(2, 2), (12, 2), (2, 12)], fx(5.0));
    let far = tri([(2, 2), (12, 2), (2, 12)], fx(10.0));
    const RED: u32 = 0xff0000;
    const BLUE: u32 = 0x0000ff;
    let mut a = ScreenBuffer::new(20, 20);
    a.fill_projected_triangle(&far, RED);
    a.fill_projected_triangle(&near, BLUE);
    let mut b = ScreenBuffer::new(20, 20);
    b.fill_projected_triangle(&near, BLUE);
    b.fill_projected_triangle(&far, RED);
    // the overlap shows the nearer triangle's color whichever came first
    assert_eq!(a.buffer()[4 * 20 + 4], BLUE);
    assert_eq!(b.buffer()[4 * 20 + 4], BLUE);
    assert_eq!(a.buffer(), b.buffer());
    // a pixel outside the triangle stays at the background
    assert_eq!(a.buffer()[18 * 20 + 18], 0);
}

#[test]
fn degenerate_triangles_are_skipped() {
    let flat = tri([(1, 1), (5, 5), (9, 9)], fx(2.0));
    let mut sb = ScreenBuffer::new(20, 20);
    sb.fill_projected_triangle(&flat, 0xffffff);
    assert!(sb.buffer().iter().all(|&p| p == 0));
}

fn tri(v: [(i64, i64); 3], z: i64) -> ProjectedTriangle {
    ProjectedTriangle {
        v0: ProjectedPoint { x: v[0].0, y: v[0].1, z },
        v1: ProjectedPoint { x: v[1].0, y: v[1].1, z },
        v2: ProjectedPoint { x: v[2].0, y: v[2].1, z },
    }
}

#[test]
fn projection_maps_the_plane_onto_the_pixel_grid() {
    // the center of a two-by-two projection plane lands mid-screen
    let p = Point2 { x: 0, y: 0 };
    assert_eq!(projection_to_screen(p, (2, 2), (10, 10)), (5, 5));
    // the top-left corner of the plane lands at pixel (0, 0)
    let corner = Point2 { x: fx(-1.0), y: fx(1.0) };
    assert_eq!(projection_to_screen(corner, (2, 2), (10, 10)), (0, 0));
    // depth rides along unchanged
    let pp = projected_point_to_screen(0, 0, fx(7.0), (2, 2), (750, 750));
    assert_eq!((pp.x, pp.y, pp.z), (375, 375, fx(7.0)));
}

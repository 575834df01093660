//! Fixed-size matrices over fixed-point scalars: multiplication, transpose,
//! minor matrices, determinants by cofactor expansion, and inversion by the
//! classical adjugate method.
//!
//! Determinants and cofactors are accumulated exactly over wide integers and
//! rounded once at the end, so each determinant and inverse entry is the
//! exactly stated quotient of integer polynomials in the raw entries.

use vstd::prelude::*;
use crate::fixed::{abs_int, fits_i64, fx_mul_spec, fx_mul, tdiv, FX_ONE, SCALE};
use crate::geometry::Point3;

verus! {

/// A 2 by 2 matrix of fixed-point scalars, stored by rows.
#[derive(Clone, Copy, Debug)]
pub struct Matrix2 {
    pub m: [[i64; 2]; 2],
}

/// A 3 by 3 matrix of fixed-point scalars, stored by rows.
#[derive(Clone, Copy, Debug)]
pub struct Matrix3 {
    pub m: [[i64; 3]; 3],
}

/// Entry of a 2 by 2 matrix at row `r`, column `c`.
pub open spec fn at2(m: Matrix2, r: int, c: int) -> int {
    m.m[r][c] as int
}

/// Entry of a 3 by 3 matrix at row `r`, column `c`.
pub open spec fn at3(m: Matrix3, r: int, c: int) -> int {
    m.m[r][c] as int
}

/// The exact integer determinant of a 2 by 2 block of raw entries.
pub open spec fn int_det2_of(a: int, b: int, c: int, d: int) -> int {
    a * d - b * c
}

/// The exact integer determinant of the raw entries of a 2 by 2 matrix.
/// The fixed-point determinant is this value divided by `SCALE`.
pub open spec fn int_det2(m: Matrix2) -> int {
    int_det2_of(at2(m, 0, 0), at2(m, 0, 1), at2(m, 1, 0), at2(m, 1, 1))
}

/// The index kept when row or column `remove` is struck out: the `i`-th of
/// the remaining indices, in order.
pub open spec fn skip_idx(remove: int, i: int) -> int {
    if i < remove {
        i
    } else {
        i + 1
    }
}

/// The exact integer determinant of the minor of a 3 by 3 matrix with
/// column `rc` and row `rr` struck out.
pub open spec fn int_minor3_det(m: Matrix3, rc: int, rr: int) -> int {
    int_det2_of(
        at3(m, skip_idx(rr, 0), skip_idx(rc, 0)),
        at3(m, skip_idx(rr, 0), skip_idx(rc, 1)),
        at3(m, skip_idx(rr, 1), skip_idx(rc, 0)),
        at3(m, skip_idx(rr, 1), skip_idx(rc, 1)),
    )
}

/// The exact integer cofactor of a 3 by 3 matrix at row `r`, column `c`:
/// the minor determinant with the checkerboard sign applied.
pub open spec fn int_cof3(m: Matrix3, r: int, c: int) -> int {
    if (r + c) % 2 == 0 {
        int_minor3_det(m, c, r)
    } else {
        -int_minor3_det(m, c, r)
    }
}

/// The exact integer determinant of the raw entries of a 3 by 3 matrix,
/// by cofactor expansion along the first row. The fixed-point determinant
/// is this value divided by `SCALE * SCALE`.
pub open spec fn int_det3(m: Matrix3) -> int {
    at3(m, 0, 0) * int_cof3(m, 0, 0) + at3(m, 0, 1) * int_cof3(m, 0, 1) + at3(m, 0, 2) * int_cof3(
        m,
        0,
        2,
    )
}

/// All entries bounded in magnitude by `bound`.
pub open spec fn bounded2(m: Matrix2, bound: int) -> bool {
    forall|r: int, c: int| 0 <= r < 2 && 0 <= c < 2 ==> abs_int(at2(m, r, c)) <= bound
}

/// All entries bounded in magnitude by `bound`.
pub open spec fn bounded3x3(m: Matrix3, bound: int) -> bool {
    forall|r: int, c: int| 0 <= r < 3 && 0 <= c < 3 ==> abs_int(at3(m, r, c)) <= bound
}

/// The common bound on matrix entries under which every intermediate of the
/// determinant and inverse routines fits its machine type (2^26 raw, a
/// scalar value of 1024).
pub const MAT_BOUND: i64 = 0x400_0000;

impl Matrix2 {
    pub fn new(data: [[i64; 2]; 2]) -> (r: Matrix2)
        ensures
            r.m == data,
    {
        Matrix2 { m: data }
    }

    /// The fixed-point determinant: the exact integer determinant of the raw
    /// entries, scaled back once.
    pub fn determinant(&self) -> (r: i64)
        requires
            bounded2(*self, MAT_BOUND as int),
        ensures
            r as int == tdiv(int_det2(*self), SCALE as int),
    {
        proof {
            crate::fixed::lemma_abs_mul(
                at2(*self, 0, 0),
                at2(*self, 1, 1),
                MAT_BOUND as int,
                MAT_BOUND as int,
            );
            crate::fixed::lemma_abs_mul(
                at2(*self, 0, 1),
                at2(*self, 1, 0),
                MAT_BOUND as int,
                MAT_BOUND as int,
            );
        }
        let a = self.m[0][0] as i128;
        let b = self.m[0][1] as i128;
        let c = self.m[1][0] as i128;
        let d = self.m[1][1] as i128;
        let det: i128 = a * d - b * c;
        proof {
            crate::fixed::lemma_tdiv_abs(
                int_det2(*self),
                SCALE as int,
                2 * (MAT_BOUND as int) * (MAT_BOUND as int),
            );
        }
        (det / (SCALE as i128)) as i64
    }
}

/// The raw entry at row `i`, column `j` of the inverse of a 3 by 3 matrix:
/// the transposed cofactor, scaled up, divided by the exact integer
/// determinant.
pub open spec fn inv3_entry(m: Matrix3, i: int, j: int) -> int {
    tdiv((SCALE as int) * (SCALE as int) * int_cof3(m, j, i), int_det3(m))
}

/// Whether every entry of the inverse of `m` fits in a raw scalar.
pub open spec fn inv3_fits(m: Matrix3) -> bool {
    &&& fits_i64(inv3_entry(m, 0, 0))
    &&& fits_i64(inv3_entry(m, 0, 1))
    &&& fits_i64(inv3_entry(m, 0, 2))
    &&& fits_i64(inv3_entry(m, 1, 0))
    &&& fits_i64(inv3_entry(m, 1, 1))
    &&& fits_i64(inv3_entry(m, 1, 2))
    &&& fits_i64(inv3_entry(m, 2, 0))
    &&& fits_i64(inv3_entry(m, 2, 1))
    &&& fits_i64(inv3_entry(m, 2, 2))
}

/// The `x` coordinate of a 3 by 3 matrix applied to a 3-dimensional point.
pub open spec fn mat3_mul_x(m: Matrix3, p: Point3) -> int {
    fx_mul_spec(at3(m, 0, 0), p.x as int) + fx_mul_spec(at3(m, 0, 1), p.y as int) + fx_mul_spec(
        at3(m, 0, 2),
        p.z as int,
    )
}

/// The `y` coordinate of a 3 by 3 matrix applied to a 3-dimensional point.
pub open spec fn mat3_mul_y(m: Matrix3, p: Point3) -> int {
    fx_mul_spec(at3(m, 1, 0), p.x as int) + fx_mul_spec(at3(m, 1, 1), p.y as int) + fx_mul_spec(
        at3(m, 1, 2),
        p.z as int,
    )
}

/// The `z` coordinate of a 3 by 3 matrix applied to a 3-dimensional point.
pub open spec fn mat3_mul_z(m: Matrix3, p: Point3) -> int {
    fx_mul_spec(at3(m, 2, 0), p.x as int) + fx_mul_spec(at3(m, 2, 1), p.y as int) + fx_mul_spec(
        at3(m, 2, 2),
        p.z as int,
    )
}

impl Matrix3 {
    pub fn new(data: [[i64; 3]; 3]) -> (r: Matrix3)
        ensures
            r.m == data,
    {
        Matrix3 { m: data }
    }

    /// The row at index `row`, if it exists.
    pub fn row(&self, row: usize) -> (r: Option<[i64; 3]>)
        ensures
            r is Some <==> row < 3,
            row < 3 ==> r == Some(self.m[row as int]),
    {
        if row >= 3 {
            None
        } else {
            Some(self.m[row])
        }
    }

    /// The column at index `col`, if it exists.
    pub fn col(&self, col: usize) -> (r: Option<[i64; 3]>)
        ensures
            r is Some <==> col < 3,
            col < 3 ==> (r matches Some(v) && v[0] == at3(*self, 0, col as int) && v[1] == at3(
                *self,
                1,
                col as int,
            ) && v[2] == at3(*self, 2, col as int)),
    {
        if col >= 3 {
            None
        } else {
            Some([self.m[0][col], self.m[1][col], self.m[2][col]])
        }
    }

    /// The minor matrix: this matrix with column `remove_x` and row
    /// `remove_y` struck out.
    pub fn minor_matrix(&self, remove_x: usize, remove_y: usize) -> (r: Matrix2)
        requires
            remove_x < 3,
            remove_y < 3,
        ensures
            at2(r, 0, 0) == at3(*self, skip_idx(remove_y as int, 0), skip_idx(remove_x as int, 0)),
            at2(r, 0, 1) == at3(*self, skip_idx(remove_y as int, 0), skip_idx(remove_x as int, 1)),
            at2(r, 1, 0) == at3(*self, skip_idx(remove_y as int, 1), skip_idx(remove_x as int, 0)),
            at2(r, 1, 1) == at3(*self, skip_idx(remove_y as int, 1), skip_idx(remove_x as int, 1)),
    {
        let r0: usize = if remove_y == 0 { 1 } else { 0 };
        let r1: usize = if remove_y <= 1 { 2 } else { 1 };
        let c0: usize = if remove_x == 0 { 1 } else { 0 };
        let c1: usize = if remove_x <= 1 { 2 } else { 1 };
        Matrix2 {
            m: [
                [self.m[r0][c0], self.m[r0][c1]],
                [self.m[r1][c0], self.m[r1][c1]],
            ],
        }
    }

    /// The fixed-point determinant: the exact integer determinant of the raw
    /// entries, scaled back once.
    pub fn determinant(&self) -> (r: i64)
        requires
            bounded3x3(*self, MAT_BOUND as int),
        ensures
            r as int == tdiv(int_det3(*self), (SCALE as int) * (SCALE as int)),
    {
        proof {
            lemma_mat3_cofactor_bounds(*self);
            crate::fixed::lemma_tdiv_abs(
                int_det3(*self),
                (SCALE as int) * (SCALE as int),
                6 * (MAT_BOUND as int) * (MAT_BOUND as int) * (MAT_BOUND as int),
            );
        }
        let m00 = self.m[0][0] as i128;
        let m01 = self.m[0][1] as i128;
        let m02 = self.m[0][2] as i128;
        let m10 = self.m[1][0] as i128;
        let m11 = self.m[1][1] as i128;
        let m12 = self.m[1][2] as i128;
        let m20 = self.m[2][0] as i128;
        let m21 = self.m[2][1] as i128;
        let m22 = self.m[2][2] as i128;
        let cof00: i128 = m11 * m22 - m12 * m21;
        let cof01: i128 = -(m10 * m22 - m12 * m20);
        let cof02: i128 = m10 * m21 - m11 * m20;
        let det: i128 = m00 * cof00 + m01 * cof01 + m02 * cof02;
        let ss: i128 = (SCALE as i128) * (SCALE as i128);
        (det / ss) as i64
    }

    /// The matrix whose entry at row `y`, column `x` is the determinant of
    /// the minor with column `x` and row `y` struck out.
    pub fn matrix_of_minors(&self) -> (r: Matrix3)
        requires
            bounded3x3(*self, MAT_BOUND as int),
        ensures
            at3(r, 0, 0) == tdiv(int_minor3_det(*self, 0, 0), SCALE as int),
            at3(r, 0, 1) == tdiv(int_minor3_det(*self, 1, 0), SCALE as int),
            at3(r, 0, 2) == tdiv(int_minor3_det(*self, 2, 0), SCALE as int),
            at3(r, 1, 0) == tdiv(int_minor3_det(*self, 0, 1), SCALE as int),
            at3(r, 1, 1) == tdiv(int_minor3_det(*self, 1, 1), SCALE as int),
            at3(r, 1, 2) == tdiv(int_minor3_det(*self, 2, 1), SCALE as int),
            at3(r, 2, 0) == tdiv(int_minor3_det(*self, 0, 2), SCALE as int),
            at3(r, 2, 1) == tdiv(int_minor3_det(*self, 1, 2), SCALE as int),
            at3(r, 2, 2) == tdiv(int_minor3_det(*self, 2, 2), SCALE as int),
    {
        proof {
            lemma_mat3_cofactor_bounds(*self);
            let bb = 2 * (MAT_BOUND as int) * (MAT_BOUND as int);
            crate::fixed::lemma_tdiv_abs(int_minor3_det(*self, 0, 0), SCALE as int, bb);
            crate::fixed::lemma_tdiv_abs(int_minor3_det(*self, 1, 0), SCALE as int, bb);
            crate::fixed::lemma_tdiv_abs(int_minor3_det(*self, 2, 0), SCALE as int, bb);
            crate::fixed::lemma_tdiv_abs(int_minor3_det(*self, 0, 1), SCALE as int, bb);
            crate::fixed::lemma_tdiv_abs(int_minor3_det(*self, 1, 1), SCALE as int, bb);
            crate::fixed::lemma_tdiv_abs(int_minor3_det(*self, 2, 1), SCALE as int, bb);
            crate::fixed::lemma_tdiv_abs(int_minor3_det(*self, 0, 2), SCALE as int, bb);
            crate::fixed::lemma_tdiv_abs(int_minor3_det(*self, 1, 2), SCALE as int, bb);
            crate::fixed::lemma_tdiv_abs(int_minor3_det(*self, 2, 2), SCALE as int, bb);
        }
        let m00 = self.m[0][0] as i128;
        let m01 = self.m[0][1] as i128;
        let m02 = self.m[0][2] as i128;
        let m10 = self.m[1][0] as i128;
        let m11 = self.m[1][1] as i128;
        let m12 = self.m[1][2] as i128;
        let m20 = self.m[2][0] as i128;
        let m21 = self.m[2][1] as i128;
        let m22 = self.m[2][2] as i128;
        let s = SCALE as i128;
        Matrix3 {
            m: [
                [
                    ((m11 * m22 - m12 * m21) / s) as i64,
                    ((m10 * m22 - m12 * m20) / s) as i64,
                    ((m10 * m21 - m11 * m20) / s) as i64,
                ],
                [
                    ((m01 * m22 - m02 * m21) / s) as i64,
                    ((m00 * m22 - m02 * m20) / s) as i64,
                    ((m00 * m21 - m01 * m20) / s) as i64,
                ],
                [
                    ((m01 * m12 - m02 * m11) / s) as i64,
                    ((m00 * m12 - m02 * m10) / s) as i64,
                    ((m00 * m11 - m01 * m10) / s) as i64,
                ],
            ],
        }
    }

    /// Negates every entry whose column plus row index is odd (the
    /// checkerboard cofactor sign pattern).
    pub fn apply_alternating_signs(&self) -> (r: Matrix3)
        requires
            bounded3x3(*self, MAT_BOUND as int),
        ensures
            at3(r, 0, 0) == at3(*self, 0, 0),
            at3(r, 0, 1) == -at3(*self, 0, 1),
            at3(r, 0, 2) == at3(*self, 0, 2),
            at3(r, 1, 0) == -at3(*self, 1, 0),
            at3(r, 1, 1) == at3(*self, 1, 1),
            at3(r, 1, 2) == -at3(*self, 1, 2),
            at3(r, 2, 0) == at3(*self, 2, 0),
            at3(r, 2, 1) == -at3(*self, 2, 1),
            at3(r, 2, 2) == at3(*self, 2, 2),
    {
        proof {
            lemma_mat3_entry_bounds(*self);
        }
        Matrix3 {
            m: [
                [self.m[0][0], -self.m[0][1], self.m[0][2]],
                [-self.m[1][0], self.m[1][1], -self.m[1][2]],
                [self.m[2][0], -self.m[2][1], self.m[2][2]],
            ],
        }
    }

    /// Rows and columns exchanged.
    pub fn transpose(&self) -> (r: Matrix3)
        ensures
            at3(r, 0, 0) == at3(*self, 0, 0),
            at3(r, 0, 1) == at3(*self, 1, 0),
            at3(r, 0, 2) == at3(*self, 2, 0),
            at3(r, 1, 0) == at3(*self, 0, 1),
            at3(r, 1, 1) == at3(*self, 1, 1),
            at3(r, 1, 2) == at3(*self, 2, 1),
            at3(r, 2, 0) == at3(*self, 0, 2),
            at3(r, 2, 1) == at3(*self, 1, 2),
            at3(r, 2, 2) == at3(*self, 2, 2),
    {
        Matrix3 {
            m: [
                [self.m[0][0], self.m[1][0], self.m[2][0]],
                [self.m[0][1], self.m[1][1], self.m[2][1]],
                [self.m[0][2], self.m[1][2], self.m[2][2]],
            ],
        }
    }

    /// Multiplies every entry by the scalar `by`.
    pub fn scalar(&self, by: i64) -> (r: Matrix3)
        requires
            forall|y: int, x: int|
                0 <= y < 3 && 0 <= x < 3 ==> fits_i64(#[trigger] fx_mul_spec(at3(*self, y, x), by as int)),
        ensures
            at3(r, 0, 0) == fx_mul_spec(at3(*self, 0, 0), by as int),
            at3(r, 0, 1) == fx_mul_spec(at3(*self, 0, 1), by as int),
            at3(r, 0, 2) == fx_mul_spec(at3(*self, 0, 2), by as int),
            at3(r, 1, 0) == fx_mul_spec(at3(*self, 1, 0), by as int),
            at3(r, 1, 1) == fx_mul_spec(at3(*self, 1, 1), by as int),
            at3(r, 1, 2) == fx_mul_spec(at3(*self, 1, 2), by as int),
            at3(r, 2, 0) == fx_mul_spec(at3(*self, 2, 0), by as int),
            at3(r, 2, 1) == fx_mul_spec(at3(*self, 2, 1), by as int),
            at3(r, 2, 2) == fx_mul_spec(at3(*self, 2, 2), by as int),
    {
        proof {
            assert(fits_i64(fx_mul_spec(at3(*self, 0, 0), by as int)));
            assert(fits_i64(fx_mul_spec(at3(*self, 0, 1), by as int)));
            assert(fits_i64(fx_mul_spec(at3(*self, 0, 2), by as int)));
            assert(fits_i64(fx_mul_spec(at3(*self, 1, 0), by as int)));
            assert(fits_i64(fx_mul_spec(at3(*self, 1, 1), by as int)));
            assert(fits_i64(fx_mul_spec(at3(*self, 1, 2), by as int)));
            assert(fits_i64(fx_mul_spec(at3(*self, 2, 0), by as int)));
            assert(fits_i64(fx_mul_spec(at3(*self, 2, 1), by as int)));
            assert(fits_i64(fx_mul_spec(at3(*self, 2, 2), by as int)));
        }
        Matrix3 {
            m: [
                [fx_mul(self.m[0][0], by), fx_mul(self.m[0][1], by), fx_mul(self.m[0][2], by)],
                [fx_mul(self.m[1][0], by), fx_mul(self.m[1][1], by), fx_mul(self.m[1][2], by)],
                [fx_mul(self.m[2][0], by), fx_mul(self.m[2][1], by), fx_mul(self.m[2][2], by)],
            ],
        }
    }

    /// The inverse by the adjugate method: transposed cofactors divided by
    /// the determinant. A singular matrix has no inverse and is excluded;
    /// `checked_inverse` rejects it at run time instead.
    pub fn inverse(&self) -> (r: Matrix3)
        requires
            bounded3x3(*self, MAT_BOUND as int),
            int_det3(*self) != 0,
            inv3_fits(*self),
        ensures
            at3(r, 0, 0) == inv3_entry(*self, 0, 0),
            at3(r, 0, 1) == inv3_entry(*self, 0, 1),
            at3(r, 0, 2) == inv3_entry(*self, 0, 2),
            at3(r, 1, 0) == inv3_entry(*self, 1, 0),
            at3(r, 1, 1) == inv3_entry(*self, 1, 1),
            at3(r, 1, 2) == inv3_entry(*self, 1, 2),
            at3(r, 2, 0) == inv3_entry(*self, 2, 0),
            at3(r, 2, 1) == inv3_entry(*self, 2, 1),
            at3(r, 2, 2) == inv3_entry(*self, 2, 2),
    {
        match self.checked_inverse() {
            Some(r) => r,
            None => {
                proof {
                    assert(false);
                }
                Matrix3 { m: [[0, 0, 0], [0, 0, 0], [0, 0, 0]] }
            },
        }
    }

    /// The inverse by the adjugate method, or `None` when the matrix is
    /// singular or an entry of the inverse does not fit in a raw scalar.
    pub fn checked_inverse(&self) -> (r: Option<Matrix3>)
        requires
            bounded3x3(*self, MAT_BOUND as int),
        ensures
            r is Some <==> (int_det3(*self) != 0 && inv3_fits(*self)),
            r matches Some(inv) ==> {
                &&& at3(inv, 0, 0) == inv3_entry(*self, 0, 0)
                &&& at3(inv, 0, 1) == inv3_entry(*self, 0, 1)
                &&& at3(inv, 0, 2) == inv3_entry(*self, 0, 2)
                &&& at3(inv, 1, 0) == inv3_entry(*self, 1, 0)
                &&& at3(inv, 1, 1) == inv3_entry(*self, 1, 1)
                &&& at3(inv, 1, 2) == inv3_entry(*self, 1, 2)
                &&& at3(inv, 2, 0) == inv3_entry(*self, 2, 0)
                &&& at3(inv, 2, 1) == inv3_entry(*self, 2, 1)
                &&& at3(inv, 2, 2) == inv3_entry(*self, 2, 2)
            },
    {
        proof {
            lemma_mat3_cofactor_bounds(*self);
        }
        let m00 = self.m[0][0] as i128;
        let m01 = self.m[0][1] as i128;
        let m02 = self.m[0][2] as i128;
        let m10 = self.m[1][0] as i128;
        let m11 = self.m[1][1] as i128;
        let m12 = self.m[1][2] as i128;
        let m20 = self.m[2][0] as i128;
        let m21 = self.m[2][1] as i128;
        let m22 = self.m[2][2] as i128;
        let cof00: i128 = m11 * m22 - m12 * m21;
        let cof01: i128 = -(m10 * m22 - m12 * m20);
        let cof02: i128 = m10 * m21 - m11 * m20;
        let cof10: i128 = -(m01 * m22 - m02 * m21);
        let cof11: i128 = m00 * m22 - m02 * m20;
        let cof12: i128 = -(m00 * m21 - m01 * m20);
        let cof20: i128 = m01 * m12 - m02 * m11;
        let cof21: i128 = -(m00 * m12 - m02 * m10);
        let cof22: i128 = m00 * m11 - m01 * m10;
        let det: i128 = m00 * cof00 + m01 * cof01 + m02 * cof02;
        if det == 0 {
            return None;
        }
        proof {
            let nb = (SCALE as int) * (SCALE as int) * 2 * (MAT_BOUND as int) * (MAT_BOUND as int);
            crate::fixed::lemma_tdiv_abs_any(
                (SCALE as int) * (SCALE as int) * int_cof3(*self, 0, 0), int_det3(*self), nb);
            crate::fixed::lemma_tdiv_abs_any(
                (SCALE as int) * (SCALE as int) * int_cof3(*self, 0, 1), int_det3(*self), nb);
            crate::fixed::lemma_tdiv_abs_any(
                (SCALE as int) * (SCALE as int) * int_cof3(*self, 0, 2), int_det3(*self), nb);
            crate::fixed::lemma_tdiv_abs_any(
                (SCALE as int) * (SCALE as int) * int_cof3(*self, 1, 0), int_det3(*self), nb);
            crate::fixed::lemma_tdiv_abs_any(
                (SCALE as int) * (SCALE as int) * int_cof3(*self, 1, 1), int_det3(*self), nb);
            crate::fixed::lemma_tdiv_abs_any(
                (SCALE as int) * (SCALE as int) * int_cof3(*self, 1, 2), int_det3(*self), nb);
            crate::fixed::lemma_tdiv_abs_any(
                (SCALE as int) * (SCALE as int) * int_cof3(*self, 2, 0), int_det3(*self), nb);
            crate::fixed::lemma_tdiv_abs_any(
                (SCALE as int) * (SCALE as int) * int_cof3(*self, 2, 1), int_det3(*self), nb);
            crate::fixed::lemma_tdiv_abs_any(
                (SCALE as int) * (SCALE as int) * int_cof3(*self, 2, 2), int_det3(*self), nb);
        }
        let ss: i128 = (SCALE as i128) * (SCALE as i128);
        let e00: i128 = ss * cof00 / det;
        let e01: i128 = ss * cof10 / det;
        let e02: i128 = ss * cof20 / det;
        let e10: i128 = ss * cof01 / det;
        let e11: i128 = ss * cof11 / det;
        let e12: i128 = ss * cof21 / det;
        let e20: i128 = ss * cof02 / det;
        let e21: i128 = ss * cof12 / det;
        let e22: i128 = ss * cof22 / det;
        let min: i128 = i64::MIN as i128;
        let max: i128 = i64::MAX as i128;
        if e00 < min || e00 > max || e01 < min || e01 > max || e02 < min || e02 > max || e10 < min
            || e10 > max || e11 < min || e11 > max || e12 < min || e12 > max || e20 < min || e20
            > max || e21 < min || e21 > max || e22 < min || e22 > max {
            return None;
        }
        Some(
            Matrix3 {
                m: [
                    [e00 as i64, e01 as i64, e02 as i64],
                    [e10 as i64, e11 as i64, e12 as i64],
                    [e20 as i64, e21 as i64, e22 as i64],
                ],
            },
        )
    }

    /// Applies this matrix to a point: a linear map application, row by row.
    pub fn mul_point(&self, p: Point3) -> (r: Point3)
        requires
            bounded3x3(*self, MAT_BOUND as int),
            crate::geometry::bounded3(p, MAT_BOUND as int),
        ensures
            r.x as int == mat3_mul_x(*self, p),
            r.y as int == mat3_mul_y(*self, p),
            r.z as int == mat3_mul_z(*self, p),
    {
        proof {
            lemma_mat3_mul_point_fits(*self, p);
        }
        let x = fx_mul(self.m[0][0], p.x) + fx_mul(self.m[0][1], p.y) + fx_mul(self.m[0][2], p.z);
        let y = fx_mul(self.m[1][0], p.x) + fx_mul(self.m[1][1], p.y) + fx_mul(self.m[1][2], p.z);
        let z = fx_mul(self.m[2][0], p.x) + fx_mul(self.m[2][1], p.y) + fx_mul(self.m[2][2], p.z);
        Point3 { x, y, z }
    }
}

/// The entry bounds of a bounded 3 by 3 matrix, one by one.
proof fn lemma_mat3_entry_bounds(m: Matrix3)
    requires
        bounded3x3(m, MAT_BOUND as int),
    ensures
        abs_int(at3(m, 0, 0)) <= MAT_BOUND as int,
        abs_int(at3(m, 0, 1)) <= MAT_BOUND as int,
        abs_int(at3(m, 0, 2)) <= MAT_BOUND as int,
        abs_int(at3(m, 1, 0)) <= MAT_BOUND as int,
        abs_int(at3(m, 1, 1)) <= MAT_BOUND as int,
        abs_int(at3(m, 1, 2)) <= MAT_BOUND as int,
        abs_int(at3(m, 2, 0)) <= MAT_BOUND as int,
        abs_int(at3(m, 2, 1)) <= MAT_BOUND as int,
        abs_int(at3(m, 2, 2)) <= MAT_BOUND as int,
{
}

/// Every fixed-point product of a bounded matrix entry and a bounded point
/// coordinate fits comfortably in a raw scalar.
proof fn lemma_mat3_mul_point_fits(m: Matrix3, p: Point3)
    requires
        bounded3x3(m, MAT_BOUND as int),
        crate::geometry::bounded3(p, MAT_BOUND as int),
    ensures
        abs_int(fx_mul_spec(at3(m, 0, 0), p.x as int)) <= 0x10_0000_0000,
        abs_int(fx_mul_spec(at3(m, 0, 1), p.y as int)) <= 0x10_0000_0000,
        abs_int(fx_mul_spec(at3(m, 0, 2), p.z as int)) <= 0x10_0000_0000,
        abs_int(fx_mul_spec(at3(m, 1, 0), p.x as int)) <= 0x10_0000_0000,
        abs_int(fx_mul_spec(at3(m, 1, 1), p.y as int)) <= 0x10_0000_0000,
        abs_int(fx_mul_spec(at3(m, 1, 2), p.z as int)) <= 0x10_0000_0000,
        abs_int(fx_mul_spec(at3(m, 2, 0), p.x as int)) <= 0x10_0000_0000,
        abs_int(fx_mul_spec(at3(m, 2, 1), p.y as int)) <= 0x10_0000_0000,
        abs_int(fx_mul_spec(at3(m, 2, 2), p.z as int)) <= 0x10_0000_0000,
{
    lemma_mat3_entry_bounds(m);
    crate::fixed::lemma_fx_mul_abs(at3(m, 0, 0), p.x as int, MAT_BOUND as int, MAT_BOUND as int);
    crate::fixed::lemma_fx_mul_abs(at3(m, 0, 1), p.y as int, MAT_BOUND as int, MAT_BOUND as int);
    crate::fixed::lemma_fx_mul_abs(at3(m, 0, 2), p.z as int, MAT_BOUND as int, MAT_BOUND as int);
    crate::fixed::lemma_fx_mul_abs(at3(m, 1, 0), p.x as int, MAT_BOUND as int, MAT_BOUND as int);
    crate::fixed::lemma_fx_mul_abs(at3(m, 1, 1), p.y as int, MAT_BOUND as int, MAT_BOUND as int);
    crate::fixed::lemma_fx_mul_abs(at3(m, 1, 2), p.z as int, MAT_BOUND as int, MAT_BOUND as int);
    crate::fixed::lemma_fx_mul_abs(at3(m, 2, 0), p.x as int, MAT_BOUND as int, MAT_BOUND as int);
    crate::fixed::lemma_fx_mul_abs(at3(m, 2, 1), p.y as int, MAT_BOUND as int, MAT_BOUND as int);
    crate::fixed::lemma_fx_mul_abs(at3(m, 2, 2), p.z as int, MAT_BOUND as int, MAT_BOUND as int);
}

/// Bounds on every intermediate of the cofactor machinery of a bounded
/// 3 by 3 matrix: entry products, minor determinants, cofactors, the
/// exact determinant, and the scaled cofactors of the inverse.
proof fn lemma_mat3_cofactor_bounds(m: Matrix3)
    requires
        bounded3x3(m, MAT_BOUND as int),
    ensures
        abs_int(at3(m, 0, 0) * at3(m, 1, 1)) <= (MAT_BOUND as int) * (MAT_BOUND as int),
        abs_int(at3(m, 0, 0) * at3(m, 1, 2)) <= (MAT_BOUND as int) * (MAT_BOUND as int),
        abs_int(at3(m, 0, 0) * at3(m, 2, 1)) <= (MAT_BOUND as int) * (MAT_BOUND as int),
        abs_int(at3(m, 0, 0) * at3(m, 2, 2)) <= (MAT_BOUND as int) * (MAT_BOUND as int),
        abs_int(at3(m, 0, 1) * at3(m, 1, 0)) <= (MAT_BOUND as int) * (MAT_BOUND as int),
        abs_int(at3(m, 0, 1) * at3(m, 1, 2)) <= (MAT_BOUND as int) * (MAT_BOUND as int),
        abs_int(at3(m, 0, 1) * at3(m, 2, 0)) <= (MAT_BOUND as int) * (MAT_BOUND as int),
        abs_int(at3(m, 0, 1) * at3(m, 2, 2)) <= (MAT_BOUND as int) * (MAT_BOUND as int),
        abs_int(at3(m, 0, 2) * at3(m, 1, 0)) <= (MAT_BOUND as int) * (MAT_BOUND as int),
        abs_int(at3(m, 0, 2) * at3(m, 1, 1)) <= (MAT_BOUND as int) * (MAT_BOUND as int),
        abs_int(at3(m, 0, 2) * at3(m, 2, 0)) <= (MAT_BOUND as int) * (MAT_BOUND as int),
        abs_int(at3(m, 0, 2) * at3(m, 2, 1)) <= (MAT_BOUND as int) * (MAT_BOUND as int),
        abs_int(at3(m, 1, 0) * at3(m, 2, 1)) <= (MAT_BOUND as int) * (MAT_BOUND as int),
        abs_int(at3(m, 1, 0) * at3(m, 2, 2)) <= (MAT_BOUND as int) * (MAT_BOUND as int),
        abs_int(at3(m, 1, 1) * at3(m, 2, 0)) <= (MAT_BOUND as int) * (MAT_BOUND as int),
        abs_int(at3(m, 1, 1) * at3(m, 2, 2)) <= (MAT_BOUND as int) * (MAT_BOUND as int),
        abs_int(at3(m, 1, 2) * at3(m, 2, 0)) <= (MAT_BOUND as int) * (MAT_BOUND as int),
        abs_int(at3(m, 1, 2) * at3(m, 2, 1)) <= (MAT_BOUND as int) * (MAT_BOUND as int),
        abs_int(int_minor3_det(m, 0, 0)) <= 2 * (MAT_BOUND as int) * (MAT_BOUND as int),
        abs_int(int_minor3_det(m, 0, 1)) <= 2 * (MAT_BOUND as int) * (MAT_BOUND as int),
        abs_int(int_minor3_det(m, 0, 2)) <= 2 * (MAT_BOUND as int) * (MAT_BOUND as int),
        abs_int(int_minor3_det(m, 1, 0)) <= 2 * (MAT_BOUND as int) * (MAT_BOUND as int),
        abs_int(int_minor3_det(m, 1, 1)) <= 2 * (MAT_BOUND as int) * (MAT_BOUND as int),
        abs_int(int_minor3_det(m, 1, 2)) <= 2 * (MAT_BOUND as int) * (MAT_BOUND as int),
        abs_int(int_minor3_det(m, 2, 0)) <= 2 * (MAT_BOUND as int) * (MAT_BOUND as int),
        abs_int(int_minor3_det(m, 2, 1)) <= 2 * (MAT_BOUND as int) * (MAT_BOUND as int),
        abs_int(int_minor3_det(m, 2, 2)) <= 2 * (MAT_BOUND as int) * (MAT_BOUND as int),
        abs_int(int_cof3(m, 0, 0)) <= 2 * (MAT_BOUND as int) * (MAT_BOUND as int),
        abs_int(int_cof3(m, 0, 1)) <= 2 * (MAT_BOUND as int) * (MAT_BOUND as int),
        abs_int(int_cof3(m, 0, 2)) <= 2 * (MAT_BOUND as int) * (MAT_BOUND as int),
        abs_int(int_cof3(m, 1, 0)) <= 2 * (MAT_BOUND as int) * (MAT_BOUND as int),
        abs_int(int_cof3(m, 1, 1)) <= 2 * (MAT_BOUND as int) * (MAT_BOUND as int),
        abs_int(int_cof3(m, 1, 2)) <= 2 * (MAT_BOUND as int) * (MAT_BOUND as int),
        abs_int(int_cof3(m, 2, 0)) <= 2 * (MAT_BOUND as int) * (MAT_BOUND as int),
        abs_int(int_cof3(m, 2, 1)) <= 2 * (MAT_BOUND as int) * (MAT_BOUND as int),
        abs_int(int_cof3(m, 2, 2)) <= 2 * (MAT_BOUND as int) * (MAT_BOUND as int),
        abs_int(at3(m, 0, 0) * int_cof3(m, 0, 0)) <= 2 * (MAT_BOUND as int) * (MAT_BOUND as int) * (MAT_BOUND as int),
        abs_int(at3(m, 0, 1) * int_cof3(m, 0, 1)) <= 2 * (MAT_BOUND as int) * (MAT_BOUND as int) * (MAT_BOUND as int),
        abs_int(at3(m, 0, 2) * int_cof3(m, 0, 2)) <= 2 * (MAT_BOUND as int) * (MAT_BOUND as int) * (MAT_BOUND as int),
        abs_int(int_det3(m)) <= 6 * (MAT_BOUND as int) * (MAT_BOUND as int) * (MAT_BOUND as int),
        abs_int((SCALE as int) * (SCALE as int) * int_cof3(m, 0, 0)) <= (SCALE as int) * (SCALE as int) * 2 * (MAT_BOUND as int) * (MAT_BOUND as int),
        abs_int((SCALE as int) * (SCALE as int) * int_cof3(m, 0, 1)) <= (SCALE as int) * (SCALE as int) * 2 * (MAT_BOUND as int) * (MAT_BOUND as int),
        abs_int((SCALE as int) * (SCALE as int) * int_cof3(m, 0, 2)) <= (SCALE as int) * (SCALE as int) * 2 * (MAT_BOUND as int) * (MAT_BOUND as int),
        abs_int((SCALE as int) * (SCALE as int) * int_cof3(m, 1, 0)) <= (SCALE as int) * (SCALE as int) * 2 * (MAT_BOUND as int) * (MAT_BOUND as int),
        abs_int((SCALE as int) * (SCALE as int) * int_cof3(m, 1, 1)) <= (SCALE as int) * (SCALE as int) * 2 * (MAT_BOUND as int) * (MAT_BOUND as int),
        abs_int((SCALE as int) * (SCALE as int) * int_cof3(m, 1, 2)) <= (SCALE as int) * (SCALE as int) * 2 * (MAT_BOUND as int) * (MAT_BOUND as int),
        abs_int((SCALE as int) * (SCALE as int) * int_cof3(m, 2, 0)) <= (SCALE as int) * (SCALE as int) * 2 * (MAT_BOUND as int) * (MAT_BOUND as int),
        abs_int((SCALE as int) * (SCALE as int) * int_cof3(m, 2, 1)) <= (SCALE as int) * (SCALE as int) * 2 * (MAT_BOUND as int) * (MAT_BOUND as int),
        abs_int((SCALE as int) * (SCALE as int) * int_cof3(m, 2, 2)) <= (SCALE as int) * (SCALE as int) * 2 * (MAT_BOUND as int) * (MAT_BOUND as int),
{
    assert(abs_int(at3(m, 0, 0)) <= MAT_BOUND as int);
    assert(abs_int(at3(m, 0, 1)) <= MAT_BOUND as int);
    assert(abs_int(at3(m, 0, 2)) <= MAT_BOUND as int);
    assert(abs_int(at3(m, 1, 0)) <= MAT_BOUND as int);
    assert(abs_int(at3(m, 1, 1)) <= MAT_BOUND as int);
    assert(abs_int(at3(m, 1, 2)) <= MAT_BOUND as int);
    assert(abs_int(at3(m, 2, 0)) <= MAT_BOUND as int);
    assert(abs_int(at3(m, 2, 1)) <= MAT_BOUND as int);
    assert(abs_int(at3(m, 2, 2)) <= MAT_BOUND as int);
    crate::fixed::lemma_abs_mul(at3(m, 0, 0), at3(m, 1, 1), MAT_BOUND as int, MAT_BOUND as int);
    crate::fixed::lemma_abs_mul(at3(m, 0, 0), at3(m, 1, 2), MAT_BOUND as int, MAT_BOUND as int);
    crate::fixed::lemma_abs_mul(at3(m, 0, 0), at3(m, 2, 1), MAT_BOUND as int, MAT_BOUND as int);
    crate::fixed::lemma_abs_mul(at3(m, 0, 0), at3(m, 2, 2), MAT_BOUND as int, MAT_BOUND as int);
    crate::fixed::lemma_abs_mul(at3(m, 0, 1), at3(m, 1, 0), MAT_BOUND as int, MAT_BOUND as int);
    crate::fixed::lemma_abs_mul(at3(m, 0, 1), at3(m, 1, 2), MAT_BOUND as int, MAT_BOUND as int);
    crate::fixed::lemma_abs_mul(at3(m, 0, 1), at3(m, 2, 0), MAT_BOUND as int, MAT_BOUND as int);
    crate::fixed::lemma_abs_mul(at3(m, 0, 1), at3(m, 2, 2), MAT_BOUND as int, MAT_BOUND as int);
    crate::fixed::lemma_abs_mul(at3(m, 0, 2), at3(m, 1, 0), MAT_BOUND as int, MAT_BOUND as int);
    crate::fixed::lemma_abs_mul(at3(m, 0, 2), at3(m, 1, 1), MAT_BOUND as int, MAT_BOUND as int);
    crate::fixed::lemma_abs_mul(at3(m, 0, 2), at3(m, 2, 0), MAT_BOUND as int, MAT_BOUND as int);
    crate::fixed::lemma_abs_mul(at3(m, 0, 2), at3(m, 2, 1), MAT_BOUND as int, MAT_BOUND as int);
    crate::fixed::lemma_abs_mul(at3(m, 1, 0), at3(m, 2, 1), MAT_BOUND as int, MAT_BOUND as int);
    crate::fixed::lemma_abs_mul(at3(m, 1, 0), at3(m, 2, 2), MAT_BOUND as int, MAT_BOUND as int);
    crate::fixed::lemma_abs_mul(at3(m, 1, 1), at3(m, 2, 0), MAT_BOUND as int, MAT_BOUND as int);
    crate::fixed::lemma_abs_mul(at3(m, 1, 1), at3(m, 2, 2), MAT_BOUND as int, MAT_BOUND as int);
    crate::fixed::lemma_abs_mul(at3(m, 1, 2), at3(m, 2, 0), MAT_BOUND as int, MAT_BOUND as int);
    crate::fixed::lemma_abs_mul(at3(m, 1, 2), at3(m, 2, 1), MAT_BOUND as int, MAT_BOUND as int);
    crate::fixed::lemma_abs_mul(at3(m, 0, 0), int_cof3(m, 0, 0), MAT_BOUND as int, 2 * (MAT_BOUND as int) * (MAT_BOUND as int));
    crate::fixed::lemma_abs_mul(at3(m, 0, 1), int_cof3(m, 0, 1), MAT_BOUND as int, 2 * (MAT_BOUND as int) * (MAT_BOUND as int));
    crate::fixed::lemma_abs_mul(at3(m, 0, 2), int_cof3(m, 0, 2), MAT_BOUND as int, 2 * (MAT_BOUND as int) * (MAT_BOUND as int));
    crate::fixed::lemma_abs_mul((SCALE as int) * (SCALE as int), int_cof3(m, 0, 0), (SCALE as int) * (SCALE as int), 2 * (MAT_BOUND as int) * (MAT_BOUND as int));
    crate::fixed::lemma_abs_mul((SCALE as int) * (SCALE as int), int_cof3(m, 0, 1), (SCALE as int) * (SCALE as int), 2 * (MAT_BOUND as int) * (MAT_BOUND as int));
    crate::fixed::lemma_abs_mul((SCALE as int) * (SCALE as int), int_cof3(m, 0, 2), (SCALE as int) * (SCALE as int), 2 * (MAT_BOUND as int) * (MAT_BOUND as int));
    crate::fixed::lemma_abs_mul((SCALE as int) * (SCALE as int), int_cof3(m, 1, 0), (SCALE as int) * (SCALE as int), 2 * (MAT_BOUND as int) * (MAT_BOUND as int));
    crate::fixed::lemma_abs_mul((SCALE as int) * (SCALE as int), int_cof3(m, 1, 1), (SCALE as int) * (SCALE as int), 2 * (MAT_BOUND as int) * (MAT_BOUND as int));
    crate::fixed::lemma_abs_mul((SCALE as int) * (SCALE as int), int_cof3(m, 1, 2), (SCALE as int) * (SCALE as int), 2 * (MAT_BOUND as int) * (MAT_BOUND as int));
    crate::fixed::lemma_abs_mul((SCALE as int) * (SCALE as int), int_cof3(m, 2, 0), (SCALE as int) * (SCALE as int), 2 * (MAT_BOUND as int) * (MAT_BOUND as int));
    crate::fixed::lemma_abs_mul((SCALE as int) * (SCALE as int), int_cof3(m, 2, 1), (SCALE as int) * (SCALE as int), 2 * (MAT_BOUND as int) * (MAT_BOUND as int));
    crate::fixed::lemma_abs_mul((SCALE as int) * (SCALE as int), int_cof3(m, 2, 2), (SCALE as int) * (SCALE as int), 2 * (MAT_BOUND as int) * (MAT_BOUND as int));
}


/// The raw entry at row `i`, column `j` of the inverse of a 2 by 2 matrix:
/// the transposed cofactor, scaled up, divided by the exact integer
/// determinant. The cofactors of a 2 by 2 matrix are single entries:
/// `[[d, -b], [-c, a]]` as the adjugate.
pub open spec fn inv2_entry(m: Matrix2, i: int, j: int) -> int {
    tdiv((SCALE as int) * (SCALE as int) * int_cof2(m, j, i), int_det2(m))
}

/// The exact integer cofactor of a 2 by 2 matrix: the opposite diagonal
/// entry, with the checkerboard sign.
pub open spec fn int_cof2(m: Matrix2, r: int, c: int) -> int {
    if (r + c) % 2 == 0 {
        at2(m, skip_idx(r, 0), skip_idx(c, 0))
    } else {
        -at2(m, skip_idx(r, 0), skip_idx(c, 0))
    }
}

/// Whether every entry of the inverse of `m` fits in a raw scalar.
pub open spec fn inv2_fits(m: Matrix2) -> bool {
    &&& fits_i64(inv2_entry(m, 0, 0))
    &&& fits_i64(inv2_entry(m, 0, 1))
    &&& fits_i64(inv2_entry(m, 1, 0))
    &&& fits_i64(inv2_entry(m, 1, 1))
}

impl Matrix2 {
    /// The inverse by the adjugate method, or `None` when the matrix is
    /// singular or an entry of the inverse does not fit in a raw scalar.
    pub fn checked_inverse(&self) -> (r: Option<Matrix2>)
        requires
            bounded2(*self, MAT_BOUND as int),
        ensures
            r is Some <==> (int_det2(*self) != 0 && inv2_fits(*self)),
            r matches Some(inv) ==> {
                &&& at2(inv, 0, 0) == inv2_entry(*self, 0, 0)
                &&& at2(inv, 0, 1) == inv2_entry(*self, 0, 1)
                &&& at2(inv, 1, 0) == inv2_entry(*self, 1, 0)
                &&& at2(inv, 1, 1) == inv2_entry(*self, 1, 1)
            },
    {
        proof {
            assert(abs_int(at2(*self, 0, 0)) <= MAT_BOUND as int);
            assert(abs_int(at2(*self, 0, 1)) <= MAT_BOUND as int);
            assert(abs_int(at2(*self, 1, 0)) <= MAT_BOUND as int);
            assert(abs_int(at2(*self, 1, 1)) <= MAT_BOUND as int);
            crate::fixed::lemma_abs_mul(
                at2(*self, 0, 0),
                at2(*self, 1, 1),
                MAT_BOUND as int,
                MAT_BOUND as int,
            );
            crate::fixed::lemma_abs_mul(
                at2(*self, 0, 1),
                at2(*self, 1, 0),
                MAT_BOUND as int,
                MAT_BOUND as int,
            );
        }
        let a = self.m[0][0] as i128;
        let b = self.m[0][1] as i128;
        let c = self.m[1][0] as i128;
        let d = self.m[1][1] as i128;
        let det: i128 = a * d - b * c;
        if det == 0 {
            return None;
        }
        proof {
            let ss = (SCALE as int) * (SCALE as int);
            let nb = ss * (MAT_BOUND as int);
            crate::fixed::lemma_abs_mul(ss, int_cof2(*self, 0, 0), ss, MAT_BOUND as int);
            crate::fixed::lemma_abs_mul(ss, int_cof2(*self, 0, 1), ss, MAT_BOUND as int);
            crate::fixed::lemma_abs_mul(ss, int_cof2(*self, 1, 0), ss, MAT_BOUND as int);
            crate::fixed::lemma_abs_mul(ss, int_cof2(*self, 1, 1), ss, MAT_BOUND as int);
            crate::fixed::lemma_tdiv_abs_any(ss * int_cof2(*self, 0, 0), int_det2(*self), nb);
            crate::fixed::lemma_tdiv_abs_any(ss * int_cof2(*self, 0, 1), int_det2(*self), nb);
            crate::fixed::lemma_tdiv_abs_any(ss * int_cof2(*self, 1, 0), int_det2(*self), nb);
            crate::fixed::lemma_tdiv_abs_any(ss * int_cof2(*self, 1, 1), int_det2(*self), nb);
        }
        let ss: i128 = (SCALE as i128) * (SCALE as i128);
        let e00: i128 = ss * d / det;
        let e01: i128 = ss * (-b) / det;
        let e10: i128 = ss * (-c) / det;
        let e11: i128 = ss * a / det;
        let min: i128 = i64::MIN as i128;
        let max: i128 = i64::MAX as i128;
        if e00 < min || e00 > max || e01 < min || e01 > max || e10 < min || e10 > max || e11 < min
            || e11 > max {
            return None;
        }
        Some(Matrix2 { m: [[e00 as i64, e01 as i64], [e10 as i64, e11 as i64]] })
    }

    /// The inverse of a nonsingular 2 by 2 matrix whose inverse entries fit;
    /// `checked_inverse` rejects the others at run time instead.
    pub fn inverse(&self) -> (r: Matrix2)
        requires
            bounded2(*self, MAT_BOUND as int),
            int_det2(*self) != 0,
            inv2_fits(*self),
        ensures
            at2(r, 0, 0) == inv2_entry(*self, 0, 0),
            at2(r, 0, 1) == inv2_entry(*self, 0, 1),
            at2(r, 1, 0) == inv2_entry(*self, 1, 0),
            at2(r, 1, 1) == inv2_entry(*self, 1, 1),
    {
        match self.checked_inverse() {
            Some(r) => r,
            None => {
                proof {
                    assert(false);
                }
                Matrix2 { m: [[0, 0], [0, 0]] }
            },
        }
    }
}

/// The exact adjugate law for 2 by 2 matrices: the transposed cofactors
/// times the matrix give the exact integer determinant on the diagonal and
/// zero off it. Scaling the adjugate by the reciprocal of the determinant
/// is therefore inversion, up to the one final rounding.
pub proof fn lemma_adjugate_times_matrix2(m: Matrix2)
    ensures
        int_cof2(m, 0, 0) * at2(m, 0, 0) + int_cof2(m, 1, 0) * at2(m, 1, 0) == int_det2(m),
        int_cof2(m, 0, 1) * at2(m, 0, 1) + int_cof2(m, 1, 1) * at2(m, 1, 1) == int_det2(m),
        int_cof2(m, 0, 0) * at2(m, 0, 1) + int_cof2(m, 1, 0) * at2(m, 1, 1) == 0,
        int_cof2(m, 0, 1) * at2(m, 0, 0) + int_cof2(m, 1, 1) * at2(m, 1, 0) == 0,
{
    assert(int_cof2(m, 0, 0) == at2(m, 1, 1));
    assert(int_cof2(m, 0, 1) == -at2(m, 1, 0));
    assert(int_cof2(m, 1, 0) == -at2(m, 0, 1));
    assert(int_cof2(m, 1, 1) == at2(m, 0, 0));
    assert(at2(m, 1, 1) * at2(m, 0, 0) + (-at2(m, 0, 1)) * at2(m, 1, 0) == at2(m, 0, 0) * at2(
        m,
        1,
        1,
    ) - at2(m, 0, 1) * at2(m, 1, 0)) by (nonlinear_arith);
    assert((-at2(m, 1, 0)) * at2(m, 0, 1) + at2(m, 0, 0) * at2(m, 1, 1) == at2(m, 0, 0) * at2(
        m,
        1,
        1,
    ) - at2(m, 0, 1) * at2(m, 1, 0)) by (nonlinear_arith);
    assert(at2(m, 1, 1) * at2(m, 0, 1) + (-at2(m, 0, 1)) * at2(m, 1, 1) == 0) by (nonlinear_arith);
    assert((-at2(m, 1, 0)) * at2(m, 0, 0) + at2(m, 0, 0) * at2(m, 1, 0) == 0) by (nonlinear_arith);
}

/// The entry at row `y`, column `x` of the product of two 3 by 3 matrices:
/// the fixed-point dot product of a row of the left factor with a column of
/// the right.
pub open spec fn mat3_prod_entry(a: Matrix3, b: Matrix3, y: int, x: int) -> int {
    fx_mul_spec(at3(a, y, 0), at3(b, 0, x)) + fx_mul_spec(at3(a, y, 1), at3(b, 1, x)) + fx_mul_spec(
        at3(a, y, 2),
        at3(b, 2, x),
    )
}

impl Matrix3 {
    /// The matrix product: each entry is the fixed-point dot product of a
    /// row of `self` with a column of `rhs`.
    pub fn mul(&self, rhs: &Matrix3) -> (r: Matrix3)
        requires
            bounded3x3(*self, MAT_BOUND as int),
            bounded3x3(*rhs, MAT_BOUND as int),
        ensures
            at3(r, 0, 0) == mat3_prod_entry(*self, *rhs, 0, 0),
            at3(r, 0, 1) == mat3_prod_entry(*self, *rhs, 0, 1),
            at3(r, 0, 2) == mat3_prod_entry(*self, *rhs, 0, 2),
            at3(r, 1, 0) == mat3_prod_entry(*self, *rhs, 1, 0),
            at3(r, 1, 1) == mat3_prod_entry(*self, *rhs, 1, 1),
            at3(r, 1, 2) == mat3_prod_entry(*self, *rhs, 1, 2),
            at3(r, 2, 0) == mat3_prod_entry(*self, *rhs, 2, 0),
            at3(r, 2, 1) == mat3_prod_entry(*self, *rhs, 2, 1),
            at3(r, 2, 2) == mat3_prod_entry(*self, *rhs, 2, 2),
    {
        proof {
            crate::fixed::lemma_fx_mul_abs(at3(*self, 0, 0), at3(*rhs, 0, 0), MAT_BOUND as int, MAT_BOUND as int);
            crate::fixed::lemma_fx_mul_abs(at3(*self, 0, 1), at3(*rhs, 1, 0), MAT_BOUND as int, MAT_BOUND as int);
            crate::fixed::lemma_fx_mul_abs(at3(*self, 0, 2), at3(*rhs, 2, 0), MAT_BOUND as int, MAT_BOUND as int);
            crate::fixed::lemma_fx_mul_abs(at3(*self, 0, 0), at3(*rhs, 0, 1), MAT_BOUND as int, MAT_BOUND as int);
            crate::fixed::lemma_fx_mul_abs(at3(*self, 0, 1), at3(*rhs, 1, 1), MAT_BOUND as int, MAT_BOUND as int);
            crate::fixed::lemma_fx_mul_abs(at3(*self, 0, 2), at3(*rhs, 2, 1), MAT_BOUND as int, MAT_BOUND as int);
            crate::fixed::lemma_fx_mul_abs(at3(*self, 0, 0), at3(*rhs, 0, 2), MAT_BOUND as int, MAT_BOUND as int);
            crate::fixed::lemma_fx_mul_abs(at3(*self, 0, 1), at3(*rhs, 1, 2), MAT_BOUND as int, MAT_BOUND as int);
            crate::fixed::lemma_fx_mul_abs(at3(*self, 0, 2), at3(*rhs, 2, 2), MAT_BOUND as int, MAT_BOUND as int);
            crate::fixed::lemma_fx_mul_abs(at3(*self, 1, 0), at3(*rhs, 0, 0), MAT_BOUND as int, MAT_BOUND as int);
            crate::fixed::lemma_fx_mul_abs(at3(*self, 1, 1), at3(*rhs, 1, 0), MAT_BOUND as int, MAT_BOUND as int);
            crate::fixed::lemma_fx_mul_abs(at3(*self, 1, 2), at3(*rhs, 2, 0), MAT_BOUND as int, MAT_BOUND as int);
            crate::fixed::lemma_fx_mul_abs(at3(*self, 1, 0), at3(*rhs, 0, 1), MAT_BOUND as int, MAT_BOUND as int);
            crate::fixed::lemma_fx_mul_abs(at3(*self, 1, 1), at3(*rhs, 1, 1), MAT_BOUND as int, MAT_BOUND as int);
            crate::fixed::lemma_fx_mul_abs(at3(*self, 1, 2), at3(*rhs, 2, 1), MAT_BOUND as int, MAT_BOUND as int);
            crate::fixed::lemma_fx_mul_abs(at3(*self, 1, 0), at3(*rhs, 0, 2), MAT_BOUND as int, MAT_BOUND as int);
            crate::fixed::lemma_fx_mul_abs(at3(*self, 1, 1), at3(*rhs, 1, 2), MAT_BOUND as int, MAT_BOUND as int);
            crate::fixed::lemma_fx_mul_abs(at3(*self, 1, 2), at3(*rhs, 2, 2), MAT_BOUND as int, MAT_BOUND as int);
            crate::fixed::lemma_fx_mul_abs(at3(*self, 2, 0), at3(*rhs, 0, 0), MAT_BOUND as int, MAT_BOUND as int);
            crate::fixed::lemma_fx_mul_abs(at3(*self, 2, 1), at3(*rhs, 1, 0), MAT_BOUND as int, MAT_BOUND as int);
            crate::fixed::lemma_fx_mul_abs(at3(*self, 2, 2), at3(*rhs, 2, 0), MAT_BOUND as int, MAT_BOUND as int);
            crate::fixed::lemma_fx_mul_abs(at3(*self, 2, 0), at3(*rhs, 0, 1), MAT_BOUND as int, MAT_BOUND as int);
            crate::fixed::lemma_fx_mul_abs(at3(*self, 2, 1), at3(*rhs, 1, 1), MAT_BOUND as int, MAT_BOUND as int);
            crate::fixed::lemma_fx_mul_abs(at3(*self, 2, 2), at3(*rhs, 2, 1), MAT_BOUND as int, MAT_BOUND as int);
            crate::fixed::lemma_fx_mul_abs(at3(*self, 2, 0), at3(*rhs, 0, 2), MAT_BOUND as int, MAT_BOUND as int);
            crate::fixed::lemma_fx_mul_abs(at3(*self, 2, 1), at3(*rhs, 1, 2), MAT_BOUND as int, MAT_BOUND as int);
            crate::fixed::lemma_fx_mul_abs(at3(*self, 2, 2), at3(*rhs, 2, 2), MAT_BOUND as int, MAT_BOUND as int);
        }
        let a = &self.m;
        let b = &rhs.m;
        Matrix3 {
            m: [
                [
                    fx_mul(a[0][0], b[0][0]) + fx_mul(a[0][1], b[1][0]) + fx_mul(a[0][2], b[2][0]),
                    fx_mul(a[0][0], b[0][1]) + fx_mul(a[0][1], b[1][1]) + fx_mul(a[0][2], b[2][1]),
                    fx_mul(a[0][0], b[0][2]) + fx_mul(a[0][1], b[1][2]) + fx_mul(a[0][2], b[2][2]),
                ],
                [
                    fx_mul(a[1][0], b[0][0]) + fx_mul(a[1][1], b[1][0]) + fx_mul(a[1][2], b[2][0]),
                    fx_mul(a[1][0], b[0][1]) + fx_mul(a[1][1], b[1][1]) + fx_mul(a[1][2], b[2][1]),
                    fx_mul(a[1][0], b[0][2]) + fx_mul(a[1][1], b[1][2]) + fx_mul(a[1][2], b[2][2]),
                ],
                [
                    fx_mul(a[2][0], b[0][0]) + fx_mul(a[2][1], b[1][0]) + fx_mul(a[2][2], b[2][0]),
                    fx_mul(a[2][0], b[0][1]) + fx_mul(a[2][1], b[1][1]) + fx_mul(a[2][2], b[2][1]),
                    fx_mul(a[2][0], b[0][2]) + fx_mul(a[2][1], b[1][2]) + fx_mul(a[2][2], b[2][2]),
                ],
            ],
        }
    }
}

/// Builds the rotation matrix for the Euler angles whose sines and cosines
/// are given as fixed-point scalars (`sx`/`cx` about the first axis, and so
/// on), with every entry pinned to its product formula. Sines and cosines
/// lie in [-1, 1], so the raw inputs are bounded by `FX_ONE`.
pub fn make_rotation_matrix(sx: i64, cx: i64, sy: i64, cy: i64, sz: i64, cz: i64) -> (r: Matrix3)
    requires
        abs_int(sx as int) <= FX_ONE as int,
        abs_int(cx as int) <= FX_ONE as int,
        abs_int(sy as int) <= FX_ONE as int,
        abs_int(cy as int) <= FX_ONE as int,
        abs_int(sz as int) <= FX_ONE as int,
        abs_int(cz as int) <= FX_ONE as int,
    ensures
        at3(r, 0, 0) == fx_mul_spec(cx as int, cy as int),
        at3(r, 0, 1) == fx_mul_spec(fx_mul_spec(cx as int, sy as int), sz as int) - fx_mul_spec(
            sx as int,
            cz as int,
        ),
        at3(r, 0, 2) == fx_mul_spec(fx_mul_spec(cx as int, sy as int), cz as int) + fx_mul_spec(
            sx as int,
            sz as int,
        ),
        at3(r, 1, 0) == fx_mul_spec(sx as int, cy as int),
        at3(r, 1, 1) == fx_mul_spec(fx_mul_spec(sx as int, sy as int), sz as int) + fx_mul_spec(
            cx as int,
            cz as int,
        ),
        at3(r, 1, 2) == fx_mul_spec(fx_mul_spec(sx as int, sy as int), cz as int) - fx_mul_spec(
            cx as int,
            sz as int,
        ),
        at3(r, 2, 0) == -sy,
        at3(r, 2, 1) == fx_mul_spec(cy as int, sz as int),
        at3(r, 2, 2) == fx_mul_spec(cy as int, cz as int),
        bounded3x3(r, MAT_BOUND as int),
{
    proof {
        lemma_trig_products(sx as int, cx as int, sy as int, cy as int, sz as int, cz as int);
    }
    let r = Matrix3 {
        m: [
            [
                fx_mul(cx, cy),
                fx_mul(fx_mul(cx, sy), sz) - fx_mul(sx, cz),
                fx_mul(fx_mul(cx, sy), cz) + fx_mul(sx, sz),
            ],
            [
                fx_mul(sx, cy),
                fx_mul(fx_mul(sx, sy), sz) + fx_mul(cx, cz),
                fx_mul(fx_mul(sx, sy), cz) - fx_mul(cx, sz),
            ],
            [-sy, fx_mul(cy, sz), fx_mul(cy, cz)],
        ],
    };
    proof {
        assert forall|y: int, x: int| 0 <= y < 3 && 0 <= x < 3 implies abs_int(
            #[trigger] at3(r, y, x),
        ) <= MAT_BOUND as int by {
            lemma_trig_products(sx as int, cx as int, sy as int, cy as int, sz as int, cz as int);
        }
    }
    r
}

/// Products of scalars bounded by one stay bounded by one, in fixed point.
proof fn lemma_trig_products(sx: int, cx: int, sy: int, cy: int, sz: int, cz: int)
    requires
        abs_int(sx) <= FX_ONE as int,
        abs_int(cx) <= FX_ONE as int,
        abs_int(sy) <= FX_ONE as int,
        abs_int(cy) <= FX_ONE as int,
        abs_int(sz) <= FX_ONE as int,
        abs_int(cz) <= FX_ONE as int,
    ensures
        abs_int(fx_mul_spec(cx, cy)) <= FX_ONE as int,
        abs_int(fx_mul_spec(cx, sy)) <= FX_ONE as int,
        abs_int(fx_mul_spec(sx, sy)) <= FX_ONE as int,
        abs_int(fx_mul_spec(sx, cy)) <= FX_ONE as int,
        abs_int(fx_mul_spec(cy, sz)) <= FX_ONE as int,
        abs_int(fx_mul_spec(cy, cz)) <= FX_ONE as int,
        abs_int(fx_mul_spec(sx, cz)) <= FX_ONE as int,
        abs_int(fx_mul_spec(sx, sz)) <= FX_ONE as int,
        abs_int(fx_mul_spec(cx, cz)) <= FX_ONE as int,
        abs_int(fx_mul_spec(cx, sz)) <= FX_ONE as int,
        abs_int(fx_mul_spec(fx_mul_spec(cx, sy), sz)) <= FX_ONE as int,
        abs_int(fx_mul_spec(fx_mul_spec(cx, sy), cz)) <= FX_ONE as int,
        abs_int(fx_mul_spec(fx_mul_spec(sx, sy), sz)) <= FX_ONE as int,
        abs_int(fx_mul_spec(fx_mul_spec(sx, sy), cz)) <= FX_ONE as int,
{
    let one = FX_ONE as int;
    crate::fixed::lemma_fx_mul_abs(cx, cy, one, one);
    crate::fixed::lemma_fx_mul_abs(cx, sy, one, one);
    crate::fixed::lemma_fx_mul_abs(sx, sy, one, one);
    crate::fixed::lemma_fx_mul_abs(sx, cy, one, one);
    crate::fixed::lemma_fx_mul_abs(cy, sz, one, one);
    crate::fixed::lemma_fx_mul_abs(cy, cz, one, one);
    crate::fixed::lemma_fx_mul_abs(sx, cz, one, one);
    crate::fixed::lemma_fx_mul_abs(sx, sz, one, one);
    crate::fixed::lemma_fx_mul_abs(cx, cz, one, one);
    crate::fixed::lemma_fx_mul_abs(cx, sz, one, one);
    crate::fixed::lemma_fx_mul_abs(fx_mul_spec(cx, sy), sz, one, one);
    crate::fixed::lemma_fx_mul_abs(fx_mul_spec(cx, sy), cz, one, one);
    crate::fixed::lemma_fx_mul_abs(fx_mul_spec(sx, sy), sz, one, one);
    crate::fixed::lemma_fx_mul_abs(fx_mul_spec(sx, sy), cz, one, one);
}


/// The first-row cofactor expansion of a 3 by 3 determinant equals its
/// six signed monomials.
proof fn lemma_det3_monomials(x00: int, x01: int, x02: int, x10: int, x11: int, x12: int, x20: int, x21: int, x22: int)
    ensures
        x00 * (x11 * x22 - x12 * x21) + x01 * (-(x10 * x22 - x12 * x20)) + x02 * (x10 * x21 - x11 * x20) == (x00 * x11) * x22 - (x00 * x12) * x21 - (x01 * x10) * x22 + (x01 * x12) * x20 + (x02 * x10) * x21 - (x02 * x11) * x20,
{
    assert(x00 * (x11 * x22 - x12 * x21) == x00 * (x11 * x22) - x00 * (x12 * x21)) by (nonlinear_arith);
    assert(x00 * (x11 * x22) == (x00 * x11) * x22) by (nonlinear_arith);
    assert(x00 * (x12 * x21) == (x00 * x12) * x21) by (nonlinear_arith);
    assert(x01 * (-(x10 * x22 - x12 * x20)) == x01 * (x12 * x20) - x01 * (x10 * x22)) by (nonlinear_arith);
    assert(x01 * (x10 * x22) == (x01 * x10) * x22) by (nonlinear_arith);
    assert(x01 * (x12 * x20) == (x01 * x12) * x20) by (nonlinear_arith);
    assert(x02 * (x10 * x21 - x11 * x20) == x02 * (x10 * x21) - x02 * (x11 * x20)) by (nonlinear_arith);
    assert(x02 * (x10 * x21) == (x02 * x10) * x21) by (nonlinear_arith);
    assert(x02 * (x11 * x20) == (x02 * x11) * x20) by (nonlinear_arith);
}

/// Cell (0, 0) of the transposed cofactors times the matrix.
proof fn lemma_cof3_cell_00(x00: int, x01: int, x02: int, x10: int, x11: int, x12: int, x20: int, x21: int, x22: int)
    ensures
        (x11 * x22 - x12 * x21) * x00 + (-(x01 * x22 - x02 * x21)) * x10 + (x01 * x12 - x02 * x11) * x20 == (x00 * x11) * x22 - (x00 * x12) * x21 - (x01 * x10) * x22 + (x01 * x12) * x20 + (x02 * x10) * x21 - (x02 * x11) * x20,
{
    assert((x11 * x22 - x12 * x21) * x00 == (x11 * x22) * x00 - (x12 * x21) * x00) by (nonlinear_arith);
    assert((x11 * x22) * x00 == (x00 * x11) * x22) by (nonlinear_arith);
    assert((x12 * x21) * x00 == (x00 * x12) * x21) by (nonlinear_arith);
    assert((-(x01 * x22 - x02 * x21)) * x10 == (x02 * x21) * x10 - (x01 * x22) * x10) by (nonlinear_arith);
    assert((x01 * x22) * x10 == (x01 * x10) * x22) by (nonlinear_arith);
    assert((x02 * x21) * x10 == (x02 * x10) * x21) by (nonlinear_arith);
    assert((x01 * x12 - x02 * x11) * x20 == (x01 * x12) * x20 - (x02 * x11) * x20) by (nonlinear_arith);
    assert((x01 * x12) * x20 == (x01 * x12) * x20) by (nonlinear_arith);
    assert((x02 * x11) * x20 == (x02 * x11) * x20) by (nonlinear_arith);
}

/// Cell (0, 1) of the transposed cofactors times the matrix.
proof fn lemma_cof3_cell_01(x00: int, x01: int, x02: int, x10: int, x11: int, x12: int, x20: int, x21: int, x22: int)
    ensures
        (x11 * x22 - x12 * x21) * x01 + (-(x01 * x22 - x02 * x21)) * x11 + (x01 * x12 - x02 * x11) * x21 == 0,
{
    assert((x11 * x22 - x12 * x21) * x01 == (x11 * x22) * x01 - (x12 * x21) * x01) by (nonlinear_arith);
    assert((x11 * x22) * x01 == (x01 * x11) * x22) by (nonlinear_arith);
    assert((x12 * x21) * x01 == (x01 * x12) * x21) by (nonlinear_arith);
    assert((-(x01 * x22 - x02 * x21)) * x11 == (x02 * x21) * x11 - (x01 * x22) * x11) by (nonlinear_arith);
    assert((x01 * x22) * x11 == (x01 * x11) * x22) by (nonlinear_arith);
    assert((x02 * x21) * x11 == (x02 * x11) * x21) by (nonlinear_arith);
    assert((x01 * x12 - x02 * x11) * x21 == (x01 * x12) * x21 - (x02 * x11) * x21) by (nonlinear_arith);
    assert((x01 * x12) * x21 == (x01 * x12) * x21) by (nonlinear_arith);
    assert((x02 * x11) * x21 == (x02 * x11) * x21) by (nonlinear_arith);
}

/// Cell (0, 2) of the transposed cofactors times the matrix.
proof fn lemma_cof3_cell_02(x00: int, x01: int, x02: int, x10: int, x11: int, x12: int, x20: int, x21: int, x22: int)
    ensures
        (x11 * x22 - x12 * x21) * x02 + (-(x01 * x22 - x02 * x21)) * x12 + (x01 * x12 - x02 * x11) * x22 == 0,
{
    assert((x11 * x22 - x12 * x21) * x02 == (x11 * x22) * x02 - (x12 * x21) * x02) by (nonlinear_arith);
    assert((x11 * x22) * x02 == (x02 * x11) * x22) by (nonlinear_arith);
    assert((x12 * x21) * x02 == (x02 * x12) * x21) by (nonlinear_arith);
    assert((-(x01 * x22 - x02 * x21)) * x12 == (x02 * x21) * x12 - (x01 * x22) * x12) by (nonlinear_arith);
    assert((x01 * x22) * x12 == (x01 * x12) * x22) by (nonlinear_arith);
    assert((x02 * x21) * x12 == (x02 * x12) * x21) by (nonlinear_arith);
    assert((x01 * x12 - x02 * x11) * x22 == (x01 * x12) * x22 - (x02 * x11) * x22) by (nonlinear_arith);
    assert((x01 * x12) * x22 == (x01 * x12) * x22) by (nonlinear_arith);
    assert((x02 * x11) * x22 == (x02 * x11) * x22) by (nonlinear_arith);
}

/// Cell (1, 0) of the transposed cofactors times the matrix.
proof fn lemma_cof3_cell_10(x00: int, x01: int, x02: int, x10: int, x11: int, x12: int, x20: int, x21: int, x22: int)
    ensures
        (-(x10 * x22 - x12 * x20)) * x00 + (x00 * x22 - x02 * x20) * x10 + (-(x00 * x12 - x02 * x10)) * x20 == 0,
{
    assert((-(x10 * x22 - x12 * x20)) * x00 == (x12 * x20) * x00 - (x10 * x22) * x00) by (nonlinear_arith);
    assert((x10 * x22) * x00 == (x00 * x10) * x22) by (nonlinear_arith);
    assert((x12 * x20) * x00 == (x00 * x12) * x20) by (nonlinear_arith);
    assert((x00 * x22 - x02 * x20) * x10 == (x00 * x22) * x10 - (x02 * x20) * x10) by (nonlinear_arith);
    assert((x00 * x22) * x10 == (x00 * x10) * x22) by (nonlinear_arith);
    assert((x02 * x20) * x10 == (x02 * x10) * x20) by (nonlinear_arith);
    assert((-(x00 * x12 - x02 * x10)) * x20 == (x02 * x10) * x20 - (x00 * x12) * x20) by (nonlinear_arith);
    assert((x00 * x12) * x20 == (x00 * x12) * x20) by (nonlinear_arith);
    assert((x02 * x10) * x20 == (x02 * x10) * x20) by (nonlinear_arith);
}

/// Cell (1, 1) of the transposed cofactors times the matrix.
proof fn lemma_cof3_cell_11(x00: int, x01: int, x02: int, x10: int, x11: int, x12: int, x20: int, x21: int, x22: int)
    ensures
        (-(x10 * x22 - x12 * x20)) * x01 + (x00 * x22 - x02 * x20) * x11 + (-(x00 * x12 - x02 * x10)) * x21 == (x00 * x11) * x22 - (x00 * x12) * x21 - (x01 * x10) * x22 + (x01 * x12) * x20 + (x02 * x10) * x21 - (x02 * x11) * x20,
{
    assert((-(x10 * x22 - x12 * x20)) * x01 == (x12 * x20) * x01 - (x10 * x22) * x01) by (nonlinear_arith);
    assert((x10 * x22) * x01 == (x01 * x10) * x22) by (nonlinear_arith);
    assert((x12 * x20) * x01 == (x01 * x12) * x20) by (nonlinear_arith);
    assert((x00 * x22 - x02 * x20) * x11 == (x00 * x22) * x11 - (x02 * x20) * x11) by (nonlinear_arith);
    assert((x00 * x22) * x11 == (x00 * x11) * x22) by (nonlinear_arith);
    assert((x02 * x20) * x11 == (x02 * x11) * x20) by (nonlinear_arith);
    assert((-(x00 * x12 - x02 * x10)) * x21 == (x02 * x10) * x21 - (x00 * x12) * x21) by (nonlinear_arith);
    assert((x00 * x12) * x21 == (x00 * x12) * x21) by (nonlinear_arith);
    assert((x02 * x10) * x21 == (x02 * x10) * x21) by (nonlinear_arith);
}

/// Cell (1, 2) of the transposed cofactors times the matrix.
proof fn lemma_cof3_cell_12(x00: int, x01: int, x02: int, x10: int, x11: int, x12: int, x20: int, x21: int, x22: int)
    ensures
        (-(x10 * x22 - x12 * x20)) * x02 + (x00 * x22 - x02 * x20) * x12 + (-(x00 * x12 - x02 * x10)) * x22 == 0,
{
    assert((-(x10 * x22 - x12 * x20)) * x02 == (x12 * x20) * x02 - (x10 * x22) * x02) by (nonlinear_arith);
    assert((x10 * x22) * x02 == (x02 * x10) * x22) by (nonlinear_arith);
    assert((x12 * x20) * x02 == (x02 * x12) * x20) by (nonlinear_arith);
    assert((x00 * x22 - x02 * x20) * x12 == (x00 * x22) * x12 - (x02 * x20) * x12) by (nonlinear_arith);
    assert((x00 * x22) * x12 == (x00 * x12) * x22) by (nonlinear_arith);
    assert((x02 * x20) * x12 == (x02 * x12) * x20) by (nonlinear_arith);
    assert((-(x00 * x12 - x02 * x10)) * x22 == (x02 * x10) * x22 - (x00 * x12) * x22) by (nonlinear_arith);
    assert((x00 * x12) * x22 == (x00 * x12) * x22) by (nonlinear_arith);
    assert((x02 * x10) * x22 == (x02 * x10) * x22) by (nonlinear_arith);
}

/// Cell (2, 0) of the transposed cofactors times the matrix.
proof fn lemma_cof3_cell_20(x00: int, x01: int, x02: int, x10: int, x11: int, x12: int, x20: int, x21: int, x22: int)
    ensures
        (x10 * x21 - x11 * x20) * x00 + (-(x00 * x21 - x01 * x20)) * x10 + (x00 * x11 - x01 * x10) * x20 == 0,
{
    assert((x10 * x21 - x11 * x20) * x00 == (x10 * x21) * x00 - (x11 * x20) * x00) by (nonlinear_arith);
    assert((x10 * x21) * x00 == (x00 * x10) * x21) by (nonlinear_arith);
    assert((x11 * x20) * x00 == (x00 * x11) * x20) by (nonlinear_arith);
    assert((-(x00 * x21 - x01 * x20)) * x10 == (x01 * x20) * x10 - (x00 * x21) * x10) by (nonlinear_arith);
    assert((x00 * x21) * x10 == (x00 * x10) * x21) by (nonlinear_arith);
    assert((x01 * x20) * x10 == (x01 * x10) * x20) by (nonlinear_arith);
    assert((x00 * x11 - x01 * x10) * x20 == (x00 * x11) * x20 - (x01 * x10) * x20) by (nonlinear_arith);
    assert((x00 * x11) * x20 == (x00 * x11) * x20) by (nonlinear_arith);
    assert((x01 * x10) * x20 == (x01 * x10) * x20) by (nonlinear_arith);
}

/// Cell (2, 1) of the transposed cofactors times the matrix.
proof fn lemma_cof3_cell_21(x00: int, x01: int, x02: int, x10: int, x11: int, x12: int, x20: int, x21: int, x22: int)
    ensures
        (x10 * x21 - x11 * x20) * x01 + (-(x00 * x21 - x01 * x20)) * x11 + (x00 * x11 - x01 * x10) * x21 == 0,
{
    assert((x10 * x21 - x11 * x20) * x01 == (x10 * x21) * x01 - (x11 * x20) * x01) by (nonlinear_arith);
    assert((x10 * x21) * x01 == (x01 * x10) * x21) by (nonlinear_arith);
    assert((x11 * x20) * x01 == (x01 * x11) * x20) by (nonlinear_arith);
    assert((-(x00 * x21 - x01 * x20)) * x11 == (x01 * x20) * x11 - (x00 * x21) * x11) by (nonlinear_arith);
    assert((x00 * x21) * x11 == (x00 * x11) * x21) by (nonlinear_arith);
    assert((x01 * x20) * x11 == (x01 * x11) * x20) by (nonlinear_arith);
    assert((x00 * x11 - x01 * x10) * x21 == (x00 * x11) * x21 - (x01 * x10) * x21) by (nonlinear_arith);
    assert((x00 * x11) * x21 == (x00 * x11) * x21) by (nonlinear_arith);
    assert((x01 * x10) * x21 == (x01 * x10) * x21) by (nonlinear_arith);
}

/// Cell (2, 2) of the transposed cofactors times the matrix.
proof fn lemma_cof3_cell_22(x00: int, x01: int, x02: int, x10: int, x11: int, x12: int, x20: int, x21: int, x22: int)
    ensures
        (x10 * x21 - x11 * x20) * x02 + (-(x00 * x21 - x01 * x20)) * x12 + (x00 * x11 - x01 * x10) * x22 == (x00 * x11) * x22 - (x00 * x12) * x21 - (x01 * x10) * x22 + (x01 * x12) * x20 + (x02 * x10) * x21 - (x02 * x11) * x20,
{
    assert((x10 * x21 - x11 * x20) * x02 == (x10 * x21) * x02 - (x11 * x20) * x02) by (nonlinear_arith);
    assert((x10 * x21) * x02 == (x02 * x10) * x21) by (nonlinear_arith);
    assert((x11 * x20) * x02 == (x02 * x11) * x20) by (nonlinear_arith);
    assert((-(x00 * x21 - x01 * x20)) * x12 == (x01 * x20) * x12 - (x00 * x21) * x12) by (nonlinear_arith);
    assert((x00 * x21) * x12 == (x00 * x12) * x21) by (nonlinear_arith);
    assert((x01 * x20) * x12 == (x01 * x12) * x20) by (nonlinear_arith);
    assert((x00 * x11 - x01 * x10) * x22 == (x00 * x11) * x22 - (x01 * x10) * x22) by (nonlinear_arith);
    assert((x00 * x11) * x22 == (x00 * x11) * x22) by (nonlinear_arith);
    assert((x01 * x10) * x22 == (x01 * x10) * x22) by (nonlinear_arith);
}

/// The exact adjugate law for 3 by 3 matrices: the transposed cofactor
/// matrix times the matrix is the exact integer determinant times the
/// identity matrix. This is the algebra behind adjugate inversion.
pub proof fn lemma_adjugate_times_matrix3(m: Matrix3)
    ensures
        int_cof3(m, 0, 0) * at3(m, 0, 0) + int_cof3(m, 1, 0) * at3(m, 1, 0) + int_cof3(m, 2, 0) * at3(m, 2, 0) == int_det3(m),
        int_cof3(m, 0, 0) * at3(m, 0, 1) + int_cof3(m, 1, 0) * at3(m, 1, 1) + int_cof3(m, 2, 0) * at3(m, 2, 1) == 0,
        int_cof3(m, 0, 0) * at3(m, 0, 2) + int_cof3(m, 1, 0) * at3(m, 1, 2) + int_cof3(m, 2, 0) * at3(m, 2, 2) == 0,
        int_cof3(m, 0, 1) * at3(m, 0, 0) + int_cof3(m, 1, 1) * at3(m, 1, 0) + int_cof3(m, 2, 1) * at3(m, 2, 0) == 0,
        int_cof3(m, 0, 1) * at3(m, 0, 1) + int_cof3(m, 1, 1) * at3(m, 1, 1) + int_cof3(m, 2, 1) * at3(m, 2, 1) == int_det3(m),
        int_cof3(m, 0, 1) * at3(m, 0, 2) + int_cof3(m, 1, 1) * at3(m, 1, 2) + int_cof3(m, 2, 1) * at3(m, 2, 2) == 0,
        int_cof3(m, 0, 2) * at3(m, 0, 0) + int_cof3(m, 1, 2) * at3(m, 1, 0) + int_cof3(m, 2, 2) * at3(m, 2, 0) == 0,
        int_cof3(m, 0, 2) * at3(m, 0, 1) + int_cof3(m, 1, 2) * at3(m, 1, 1) + int_cof3(m, 2, 2) * at3(m, 2, 1) == 0,
        int_cof3(m, 0, 2) * at3(m, 0, 2) + int_cof3(m, 1, 2) * at3(m, 1, 2) + int_cof3(m, 2, 2) * at3(m, 2, 2) == int_det3(m),
{
    assert(int_cof3(m, 0, 0) == (at3(m, 1, 1) * at3(m, 2, 2) - at3(m, 1, 2) * at3(m, 2, 1)));
    assert(int_cof3(m, 0, 1) == (-(at3(m, 1, 0) * at3(m, 2, 2) - at3(m, 1, 2) * at3(m, 2, 0))));
    assert(int_cof3(m, 0, 2) == (at3(m, 1, 0) * at3(m, 2, 1) - at3(m, 1, 1) * at3(m, 2, 0)));
    assert(int_cof3(m, 1, 0) == (-(at3(m, 0, 1) * at3(m, 2, 2) - at3(m, 0, 2) * at3(m, 2, 1))));
    assert(int_cof3(m, 1, 1) == (at3(m, 0, 0) * at3(m, 2, 2) - at3(m, 0, 2) * at3(m, 2, 0)));
    assert(int_cof3(m, 1, 2) == (-(at3(m, 0, 0) * at3(m, 2, 1) - at3(m, 0, 1) * at3(m, 2, 0))));
    assert(int_cof3(m, 2, 0) == (at3(m, 0, 1) * at3(m, 1, 2) - at3(m, 0, 2) * at3(m, 1, 1)));
    assert(int_cof3(m, 2, 1) == (-(at3(m, 0, 0) * at3(m, 1, 2) - at3(m, 0, 2) * at3(m, 1, 0))));
    assert(int_cof3(m, 2, 2) == (at3(m, 0, 0) * at3(m, 1, 1) - at3(m, 0, 1) * at3(m, 1, 0)));
    lemma_det3_monomials(at3(m, 0, 0), at3(m, 0, 1), at3(m, 0, 2), at3(m, 1, 0), at3(m, 1, 1), at3(m, 1, 2), at3(m, 2, 0), at3(m, 2, 1), at3(m, 2, 2));
    lemma_cof3_cell_00(at3(m, 0, 0), at3(m, 0, 1), at3(m, 0, 2), at3(m, 1, 0), at3(m, 1, 1), at3(m, 1, 2), at3(m, 2, 0), at3(m, 2, 1), at3(m, 2, 2));
    lemma_cof3_cell_01(at3(m, 0, 0), at3(m, 0, 1), at3(m, 0, 2), at3(m, 1, 0), at3(m, 1, 1), at3(m, 1, 2), at3(m, 2, 0), at3(m, 2, 1), at3(m, 2, 2));
    lemma_cof3_cell_02(at3(m, 0, 0), at3(m, 0, 1), at3(m, 0, 2), at3(m, 1, 0), at3(m, 1, 1), at3(m, 1, 2), at3(m, 2, 0), at3(m, 2, 1), at3(m, 2, 2));
    lemma_cof3_cell_10(at3(m, 0, 0), at3(m, 0, 1), at3(m, 0, 2), at3(m, 1, 0), at3(m, 1, 1), at3(m, 1, 2), at3(m, 2, 0), at3(m, 2, 1), at3(m, 2, 2));
    lemma_cof3_cell_11(at3(m, 0, 0), at3(m, 0, 1), at3(m, 0, 2), at3(m, 1, 0), at3(m, 1, 1), at3(m, 1, 2), at3(m, 2, 0), at3(m, 2, 1), at3(m, 2, 2));
    lemma_cof3_cell_12(at3(m, 0, 0), at3(m, 0, 1), at3(m, 0, 2), at3(m, 1, 0), at3(m, 1, 1), at3(m, 1, 2), at3(m, 2, 0), at3(m, 2, 1), at3(m, 2, 2));
    lemma_cof3_cell_20(at3(m, 0, 0), at3(m, 0, 1), at3(m, 0, 2), at3(m, 1, 0), at3(m, 1, 1), at3(m, 1, 2), at3(m, 2, 0), at3(m, 2, 1), at3(m, 2, 2));
    lemma_cof3_cell_21(at3(m, 0, 0), at3(m, 0, 1), at3(m, 0, 2), at3(m, 1, 0), at3(m, 1, 1), at3(m, 1, 2), at3(m, 2, 0), at3(m, 2, 1), at3(m, 2, 2));
    lemma_cof3_cell_22(at3(m, 0, 0), at3(m, 0, 1), at3(m, 0, 2), at3(m, 1, 0), at3(m, 1, 1), at3(m, 1, 2), at3(m, 2, 0), at3(m, 2, 1), at3(m, 2, 2));
}

/// A 4 by 4 matrix of fixed-point scalars, stored by rows.
#[derive(Clone, Copy, Debug)]
pub struct Matrix4 {
    pub m: [[i64; 4]; 4],
}

/// Entry of a 4 by 4 matrix at row `r`, column `c`.
pub open spec fn at4(m: Matrix4, r: int, c: int) -> int {
    m.m[r][c] as int
}

/// The exact integer determinant of a 3 by 3 block of raw entries, by
/// cofactor expansion along its first row.
pub open spec fn int_det3_of(
    a: int, b: int, c: int, d: int, e: int, f: int, g: int, h: int, i: int,
) -> int {
    a * (e * i - f * h) - b * (d * i - f * g) + c * (d * h - e * g)
}

/// The exact integer determinant of the minor of a 4 by 4 matrix with
/// column `rc` and row `rr` struck out.
pub open spec fn int_minor4_det(m: Matrix4, rc: int, rr: int) -> int {
    int_det3_of(
        at4(m, skip_idx(rr, 0), skip_idx(rc, 0)),
        at4(m, skip_idx(rr, 0), skip_idx(rc, 1)),
        at4(m, skip_idx(rr, 0), skip_idx(rc, 2)),
        at4(m, skip_idx(rr, 1), skip_idx(rc, 0)),
        at4(m, skip_idx(rr, 1), skip_idx(rc, 1)),
        at4(m, skip_idx(rr, 1), skip_idx(rc, 2)),
        at4(m, skip_idx(rr, 2), skip_idx(rc, 0)),
        at4(m, skip_idx(rr, 2), skip_idx(rc, 1)),
        at4(m, skip_idx(rr, 2), skip_idx(rc, 2)),
    )
}

/// The exact integer cofactor of a 4 by 4 matrix at row `r`, column `c`.
pub open spec fn int_cof4(m: Matrix4, r: int, c: int) -> int {
    if (r + c) % 2 == 0 {
        int_minor4_det(m, c, r)
    } else {
        -int_minor4_det(m, c, r)
    }
}

/// The exact integer determinant of the raw entries of a 4 by 4 matrix,
/// by cofactor expansion along the first row. The fixed-point determinant
/// is this value divided by `SCALE` cubed.
pub open spec fn int_det4(m: Matrix4) -> int {
    at4(m, 0, 0) * int_cof4(m, 0, 0) + at4(m, 0, 1) * int_cof4(m, 0, 1) + at4(m, 0, 2)
        * int_cof4(m, 0, 2) + at4(m, 0, 3) * int_cof4(m, 0, 3)
}

/// All entries bounded in magnitude by `bound`.
pub open spec fn bounded4x4(m: Matrix4, bound: int) -> bool {
    forall|r: int, c: int| 0 <= r < 4 && 0 <= c < 4 ==> abs_int(at4(m, r, c)) <= bound
}

/// The raw entry at row `i`, column `j` of the inverse of a 4 by 4 matrix:
/// the transposed cofactor, scaled up, divided by the exact integer
/// determinant.
pub open spec fn inv4_entry(m: Matrix4, i: int, j: int) -> int {
    tdiv((SCALE as int) * (SCALE as int) * int_cof4(m, j, i), int_det4(m))
}

/// Whether every entry of the inverse of `m` fits in a raw scalar.
pub open spec fn inv4_fits(m: Matrix4) -> bool {
    &&& fits_i64(inv4_entry(m, 0, 0))
    &&& fits_i64(inv4_entry(m, 0, 1))
    &&& fits_i64(inv4_entry(m, 0, 2))
    &&& fits_i64(inv4_entry(m, 0, 3))
    &&& fits_i64(inv4_entry(m, 1, 0))
    &&& fits_i64(inv4_entry(m, 1, 1))
    &&& fits_i64(inv4_entry(m, 1, 2))
    &&& fits_i64(inv4_entry(m, 1, 3))
    &&& fits_i64(inv4_entry(m, 2, 0))
    &&& fits_i64(inv4_entry(m, 2, 1))
    &&& fits_i64(inv4_entry(m, 2, 2))
    &&& fits_i64(inv4_entry(m, 2, 3))
    &&& fits_i64(inv4_entry(m, 3, 0))
    &&& fits_i64(inv4_entry(m, 3, 1))
    &&& fits_i64(inv4_entry(m, 3, 2))
    &&& fits_i64(inv4_entry(m, 3, 3))
}

/// Bounds on every intermediate of the cofactor machinery of a bounded
/// 4 by 4 matrix.
proof fn lemma_mat4_cofactor_bounds(m: Matrix4)
    requires
        bounded4x4(m, MAT_BOUND as int),
    ensures
        abs_int(at4(m, 2, 2) * at4(m, 3, 3)) <= 4503599627370496,
        abs_int(at4(m, 2, 3) * at4(m, 3, 2)) <= 4503599627370496,
        abs_int(at4(m, 2, 1) * at4(m, 3, 3)) <= 4503599627370496,
        abs_int(at4(m, 2, 3) * at4(m, 3, 1)) <= 4503599627370496,
        abs_int(at4(m, 2, 1) * at4(m, 3, 2)) <= 4503599627370496,
        abs_int(at4(m, 2, 2) * at4(m, 3, 1)) <= 4503599627370496,
        abs_int(at4(m, 1, 1) * (at4(m, 2, 2) * at4(m, 3, 3) - at4(m, 2, 3) * at4(m, 3, 2))) <= 604462909807314587353088,
        abs_int(at4(m, 1, 2) * (at4(m, 2, 1) * at4(m, 3, 3) - at4(m, 2, 3) * at4(m, 3, 1))) <= 604462909807314587353088,
        abs_int(at4(m, 1, 3) * (at4(m, 2, 1) * at4(m, 3, 2) - at4(m, 2, 2) * at4(m, 3, 1))) <= 604462909807314587353088,
        abs_int(at4(m, 0, 1) * (at4(m, 2, 2) * at4(m, 3, 3) - at4(m, 2, 3) * at4(m, 3, 2))) <= 604462909807314587353088,
        abs_int(at4(m, 0, 2) * (at4(m, 2, 1) * at4(m, 3, 3) - at4(m, 2, 3) * at4(m, 3, 1))) <= 604462909807314587353088,
        abs_int(at4(m, 0, 3) * (at4(m, 2, 1) * at4(m, 3, 2) - at4(m, 2, 2) * at4(m, 3, 1))) <= 604462909807314587353088,
        abs_int(at4(m, 1, 2) * at4(m, 3, 3)) <= 4503599627370496,
        abs_int(at4(m, 1, 3) * at4(m, 3, 2)) <= 4503599627370496,
        abs_int(at4(m, 1, 1) * at4(m, 3, 3)) <= 4503599627370496,
        abs_int(at4(m, 1, 3) * at4(m, 3, 1)) <= 4503599627370496,
        abs_int(at4(m, 1, 1) * at4(m, 3, 2)) <= 4503599627370496,
        abs_int(at4(m, 1, 2) * at4(m, 3, 1)) <= 4503599627370496,
        abs_int(at4(m, 0, 1) * (at4(m, 1, 2) * at4(m, 3, 3) - at4(m, 1, 3) * at4(m, 3, 2))) <= 604462909807314587353088,
        abs_int(at4(m, 0, 2) * (at4(m, 1, 1) * at4(m, 3, 3) - at4(m, 1, 3) * at4(m, 3, 1))) <= 604462909807314587353088,
        abs_int(at4(m, 0, 3) * (at4(m, 1, 1) * at4(m, 3, 2) - at4(m, 1, 2) * at4(m, 3, 1))) <= 604462909807314587353088,
        abs_int(at4(m, 1, 2) * at4(m, 2, 3)) <= 4503599627370496,
        abs_int(at4(m, 1, 3) * at4(m, 2, 2)) <= 4503599627370496,
        abs_int(at4(m, 1, 1) * at4(m, 2, 3)) <= 4503599627370496,
        abs_int(at4(m, 1, 3) * at4(m, 2, 1)) <= 4503599627370496,
        abs_int(at4(m, 1, 1) * at4(m, 2, 2)) <= 4503599627370496,
        abs_int(at4(m, 1, 2) * at4(m, 2, 1)) <= 4503599627370496,
        abs_int(at4(m, 0, 1) * (at4(m, 1, 2) * at4(m, 2, 3) - at4(m, 1, 3) * at4(m, 2, 2))) <= 604462909807314587353088,
        abs_int(at4(m, 0, 2) * (at4(m, 1, 1) * at4(m, 2, 3) - at4(m, 1, 3) * at4(m, 2, 1))) <= 604462909807314587353088,
        abs_int(at4(m, 0, 3) * (at4(m, 1, 1) * at4(m, 2, 2) - at4(m, 1, 2) * at4(m, 2, 1))) <= 604462909807314587353088,
        abs_int(at4(m, 2, 0) * at4(m, 3, 3)) <= 4503599627370496,
        abs_int(at4(m, 2, 3) * at4(m, 3, 0)) <= 4503599627370496,
        abs_int(at4(m, 2, 0) * at4(m, 3, 2)) <= 4503599627370496,
        abs_int(at4(m, 2, 2) * at4(m, 3, 0)) <= 4503599627370496,
        abs_int(at4(m, 1, 0) * (at4(m, 2, 2) * at4(m, 3, 3) - at4(m, 2, 3) * at4(m, 3, 2))) <= 604462909807314587353088,
        abs_int(at4(m, 1, 2) * (at4(m, 2, 0) * at4(m, 3, 3) - at4(m, 2, 3) * at4(m, 3, 0))) <= 604462909807314587353088,
        abs_int(at4(m, 1, 3) * (at4(m, 2, 0) * at4(m, 3, 2) - at4(m, 2, 2) * at4(m, 3, 0))) <= 604462909807314587353088,
        abs_int(at4(m, 0, 0) * (at4(m, 2, 2) * at4(m, 3, 3) - at4(m, 2, 3) * at4(m, 3, 2))) <= 604462909807314587353088,
        abs_int(at4(m, 0, 2) * (at4(m, 2, 0) * at4(m, 3, 3) - at4(m, 2, 3) * at4(m, 3, 0))) <= 604462909807314587353088,
        abs_int(at4(m, 0, 3) * (at4(m, 2, 0) * at4(m, 3, 2) - at4(m, 2, 2) * at4(m, 3, 0))) <= 604462909807314587353088,
        abs_int(at4(m, 1, 0) * at4(m, 3, 3)) <= 4503599627370496,
        abs_int(at4(m, 1, 3) * at4(m, 3, 0)) <= 4503599627370496,
        abs_int(at4(m, 1, 0) * at4(m, 3, 2)) <= 4503599627370496,
        abs_int(at4(m, 1, 2) * at4(m, 3, 0)) <= 4503599627370496,
        abs_int(at4(m, 0, 0) * (at4(m, 1, 2) * at4(m, 3, 3) - at4(m, 1, 3) * at4(m, 3, 2))) <= 604462909807314587353088,
        abs_int(at4(m, 0, 2) * (at4(m, 1, 0) * at4(m, 3, 3) - at4(m, 1, 3) * at4(m, 3, 0))) <= 604462909807314587353088,
        abs_int(at4(m, 0, 3) * (at4(m, 1, 0) * at4(m, 3, 2) - at4(m, 1, 2) * at4(m, 3, 0))) <= 604462909807314587353088,
        abs_int(at4(m, 1, 0) * at4(m, 2, 3)) <= 4503599627370496,
        abs_int(at4(m, 1, 3) * at4(m, 2, 0)) <= 4503599627370496,
        abs_int(at4(m, 1, 0) * at4(m, 2, 2)) <= 4503599627370496,
        abs_int(at4(m, 1, 2) * at4(m, 2, 0)) <= 4503599627370496,
        abs_int(at4(m, 0, 0) * (at4(m, 1, 2) * at4(m, 2, 3) - at4(m, 1, 3) * at4(m, 2, 2))) <= 604462909807314587353088,
        abs_int(at4(m, 0, 2) * (at4(m, 1, 0) * at4(m, 2, 3) - at4(m, 1, 3) * at4(m, 2, 0))) <= 604462909807314587353088,
        abs_int(at4(m, 0, 3) * (at4(m, 1, 0) * at4(m, 2, 2) - at4(m, 1, 2) * at4(m, 2, 0))) <= 604462909807314587353088,
        abs_int(at4(m, 2, 0) * at4(m, 3, 1)) <= 4503599627370496,
        abs_int(at4(m, 2, 1) * at4(m, 3, 0)) <= 4503599627370496,
        abs_int(at4(m, 1, 0) * (at4(m, 2, 1) * at4(m, 3, 3) - at4(m, 2, 3) * at4(m, 3, 1))) <= 604462909807314587353088,
        abs_int(at4(m, 1, 1) * (at4(m, 2, 0) * at4(m, 3, 3) - at4(m, 2, 3) * at4(m, 3, 0))) <= 604462909807314587353088,
        abs_int(at4(m, 1, 3) * (at4(m, 2, 0) * at4(m, 3, 1) - at4(m, 2, 1) * at4(m, 3, 0))) <= 604462909807314587353088,
        abs_int(at4(m, 0, 0) * (at4(m, 2, 1) * at4(m, 3, 3) - at4(m, 2, 3) * at4(m, 3, 1))) <= 604462909807314587353088,
        abs_int(at4(m, 0, 1) * (at4(m, 2, 0) * at4(m, 3, 3) - at4(m, 2, 3) * at4(m, 3, 0))) <= 604462909807314587353088,
        abs_int(at4(m, 0, 3) * (at4(m, 2, 0) * at4(m, 3, 1) - at4(m, 2, 1) * at4(m, 3, 0))) <= 604462909807314587353088,
        abs_int(at4(m, 1, 0) * at4(m, 3, 1)) <= 4503599627370496,
        abs_int(at4(m, 1, 1) * at4(m, 3, 0)) <= 4503599627370496,
        abs_int(at4(m, 0, 0) * (at4(m, 1, 1) * at4(m, 3, 3) - at4(m, 1, 3) * at4(m, 3, 1))) <= 604462909807314587353088,
        abs_int(at4(m, 0, 1) * (at4(m, 1, 0) * at4(m, 3, 3) - at4(m, 1, 3) * at4(m, 3, 0))) <= 604462909807314587353088,
        abs_int(at4(m, 0, 3) * (at4(m, 1, 0) * at4(m, 3, 1) - at4(m, 1, 1) * at4(m, 3, 0))) <= 604462909807314587353088,
        abs_int(at4(m, 1, 0) * at4(m, 2, 1)) <= 4503599627370496,
        abs_int(at4(m, 1, 1) * at4(m, 2, 0)) <= 4503599627370496,
        abs_int(at4(m, 0, 0) * (at4(m, 1, 1) * at4(m, 2, 3) - at4(m, 1, 3) * at4(m, 2, 1))) <= 604462909807314587353088,
        abs_int(at4(m, 0, 1) * (at4(m, 1, 0) * at4(m, 2, 3) - at4(m, 1, 3) * at4(m, 2, 0))) <= 604462909807314587353088,
        abs_int(at4(m, 0, 3) * (at4(m, 1, 0) * at4(m, 2, 1) - at4(m, 1, 1) * at4(m, 2, 0))) <= 604462909807314587353088,
        abs_int(at4(m, 1, 0) * (at4(m, 2, 1) * at4(m, 3, 2) - at4(m, 2, 2) * at4(m, 3, 1))) <= 604462909807314587353088,
        abs_int(at4(m, 1, 1) * (at4(m, 2, 0) * at4(m, 3, 2) - at4(m, 2, 2) * at4(m, 3, 0))) <= 604462909807314587353088,
        abs_int(at4(m, 1, 2) * (at4(m, 2, 0) * at4(m, 3, 1) - at4(m, 2, 1) * at4(m, 3, 0))) <= 604462909807314587353088,
        abs_int(at4(m, 0, 0) * (at4(m, 2, 1) * at4(m, 3, 2) - at4(m, 2, 2) * at4(m, 3, 1))) <= 604462909807314587353088,
        abs_int(at4(m, 0, 1) * (at4(m, 2, 0) * at4(m, 3, 2) - at4(m, 2, 2) * at4(m, 3, 0))) <= 604462909807314587353088,
        abs_int(at4(m, 0, 2) * (at4(m, 2, 0) * at4(m, 3, 1) - at4(m, 2, 1) * at4(m, 3, 0))) <= 604462909807314587353088,
        abs_int(at4(m, 0, 0) * (at4(m, 1, 1) * at4(m, 3, 2) - at4(m, 1, 2) * at4(m, 3, 1))) <= 604462909807314587353088,
        abs_int(at4(m, 0, 1) * (at4(m, 1, 0) * at4(m, 3, 2) - at4(m, 1, 2) * at4(m, 3, 0))) <= 604462909807314587353088,
        abs_int(at4(m, 0, 2) * (at4(m, 1, 0) * at4(m, 3, 1) - at4(m, 1, 1) * at4(m, 3, 0))) <= 604462909807314587353088,
        abs_int(at4(m, 0, 0) * (at4(m, 1, 1) * at4(m, 2, 2) - at4(m, 1, 2) * at4(m, 2, 1))) <= 604462909807314587353088,
        abs_int(at4(m, 0, 1) * (at4(m, 1, 0) * at4(m, 2, 2) - at4(m, 1, 2) * at4(m, 2, 0))) <= 604462909807314587353088,
        abs_int(at4(m, 0, 2) * (at4(m, 1, 0) * at4(m, 2, 1) - at4(m, 1, 1) * at4(m, 2, 0))) <= 604462909807314587353088,
        abs_int(int_minor4_det(m, 0, 0)) <= 1813388729421943762059264,
        abs_int(int_minor4_det(m, 0, 1)) <= 1813388729421943762059264,
        abs_int(int_minor4_det(m, 0, 2)) <= 1813388729421943762059264,
        abs_int(int_minor4_det(m, 0, 3)) <= 1813388729421943762059264,
        abs_int(int_minor4_det(m, 1, 0)) <= 1813388729421943762059264,
        abs_int(int_minor4_det(m, 1, 1)) <= 1813388729421943762059264,
        abs_int(int_minor4_det(m, 1, 2)) <= 1813388729421943762059264,
        abs_int(int_minor4_det(m, 1, 3)) <= 1813388729421943762059264,
        abs_int(int_minor4_det(m, 2, 0)) <= 1813388729421943762059264,
        abs_int(int_minor4_det(m, 2, 1)) <= 1813388729421943762059264,
        abs_int(int_minor4_det(m, 2, 2)) <= 1813388729421943762059264,
        abs_int(int_minor4_det(m, 2, 3)) <= 1813388729421943762059264,
        abs_int(int_minor4_det(m, 3, 0)) <= 1813388729421943762059264,
        abs_int(int_minor4_det(m, 3, 1)) <= 1813388729421943762059264,
        abs_int(int_minor4_det(m, 3, 2)) <= 1813388729421943762059264,
        abs_int(int_minor4_det(m, 3, 3)) <= 1813388729421943762059264,
        abs_int(int_cof4(m, 0, 0)) <= 1813388729421943762059264,
        abs_int(int_cof4(m, 0, 1)) <= 1813388729421943762059264,
        abs_int(int_cof4(m, 0, 2)) <= 1813388729421943762059264,
        abs_int(int_cof4(m, 0, 3)) <= 1813388729421943762059264,
        abs_int(int_cof4(m, 1, 0)) <= 1813388729421943762059264,
        abs_int(int_cof4(m, 1, 1)) <= 1813388729421943762059264,
        abs_int(int_cof4(m, 1, 2)) <= 1813388729421943762059264,
        abs_int(int_cof4(m, 1, 3)) <= 1813388729421943762059264,
        abs_int(int_cof4(m, 2, 0)) <= 1813388729421943762059264,
        abs_int(int_cof4(m, 2, 1)) <= 1813388729421943762059264,
        abs_int(int_cof4(m, 2, 2)) <= 1813388729421943762059264,
        abs_int(int_cof4(m, 2, 3)) <= 1813388729421943762059264,
        abs_int(int_cof4(m, 3, 0)) <= 1813388729421943762059264,
        abs_int(int_cof4(m, 3, 1)) <= 1813388729421943762059264,
        abs_int(int_cof4(m, 3, 2)) <= 1813388729421943762059264,
        abs_int(int_cof4(m, 3, 3)) <= 1813388729421943762059264,
        abs_int(at4(m, 0, 0) * int_cof4(m, 0, 0)) <= 121694457621910022543683507716096,
        abs_int(at4(m, 0, 1) * int_cof4(m, 0, 1)) <= 121694457621910022543683507716096,
        abs_int(at4(m, 0, 2) * int_cof4(m, 0, 2)) <= 121694457621910022543683507716096,
        abs_int(at4(m, 0, 3) * int_cof4(m, 0, 3)) <= 121694457621910022543683507716096,
        abs_int(int_det4(m)) <= 486777830487640090174734030864384,
        abs_int((SCALE as int) * (SCALE as int) * int_cof4(m, 0, 0)) <= 7788445287802241442795744493830144,
        abs_int((SCALE as int) * (SCALE as int) * int_cof4(m, 0, 1)) <= 7788445287802241442795744493830144,
        abs_int((SCALE as int) * (SCALE as int) * int_cof4(m, 0, 2)) <= 7788445287802241442795744493830144,
        abs_int((SCALE as int) * (SCALE as int) * int_cof4(m, 0, 3)) <= 7788445287802241442795744493830144,
        abs_int((SCALE as int) * (SCALE as int) * int_cof4(m, 1, 0)) <= 7788445287802241442795744493830144,
        abs_int((SCALE as int) * (SCALE as int) * int_cof4(m, 1, 1)) <= 7788445287802241442795744493830144,
        abs_int((SCALE as int) * (SCALE as int) * int_cof4(m, 1, 2)) <= 7788445287802241442795744493830144,
        abs_int((SCALE as int) * (SCALE as int) * int_cof4(m, 1, 3)) <= 7788445287802241442795744493830144,
        abs_int((SCALE as int) * (SCALE as int) * int_cof4(m, 2, 0)) <= 7788445287802241442795744493830144,
        abs_int((SCALE as int) * (SCALE as int) * int_cof4(m, 2, 1)) <= 7788445287802241442795744493830144,
        abs_int((SCALE as int) * (SCALE as int) * int_cof4(m, 2, 2)) <= 7788445287802241442795744493830144,
        abs_int((SCALE as int) * (SCALE as int) * int_cof4(m, 2, 3)) <= 7788445287802241442795744493830144,
        abs_int((SCALE as int) * (SCALE as int) * int_cof4(m, 3, 0)) <= 7788445287802241442795744493830144,
        abs_int((SCALE as int) * (SCALE as int) * int_cof4(m, 3, 1)) <= 7788445287802241442795744493830144,
        abs_int((SCALE as int) * (SCALE as int) * int_cof4(m, 3, 2)) <= 7788445287802241442795744493830144,
        abs_int((SCALE as int) * (SCALE as int) * int_cof4(m, 3, 3)) <= 7788445287802241442795744493830144,
{
    assert(abs_int(at4(m, 0, 0)) <= MAT_BOUND as int);
    assert(abs_int(at4(m, 0, 1)) <= MAT_BOUND as int);
    assert(abs_int(at4(m, 0, 2)) <= MAT_BOUND as int);
    assert(abs_int(at4(m, 0, 3)) <= MAT_BOUND as int);
    assert(abs_int(at4(m, 1, 0)) <= MAT_BOUND as int);
    assert(abs_int(at4(m, 1, 1)) <= MAT_BOUND as int);
    assert(abs_int(at4(m, 1, 2)) <= MAT_BOUND as int);
    assert(abs_int(at4(m, 1, 3)) <= MAT_BOUND as int);
    assert(abs_int(at4(m, 2, 0)) <= MAT_BOUND as int);
    assert(abs_int(at4(m, 2, 1)) <= MAT_BOUND as int);
    assert(abs_int(at4(m, 2, 2)) <= MAT_BOUND as int);
    assert(abs_int(at4(m, 2, 3)) <= MAT_BOUND as int);
    assert(abs_int(at4(m, 3, 0)) <= MAT_BOUND as int);
    assert(abs_int(at4(m, 3, 1)) <= MAT_BOUND as int);
    assert(abs_int(at4(m, 3, 2)) <= MAT_BOUND as int);
    assert(abs_int(at4(m, 3, 3)) <= MAT_BOUND as int);
    crate::fixed::lemma_abs_mul(at4(m, 2, 2), at4(m, 3, 3), 67108864, 67108864);
    crate::fixed::lemma_abs_mul(at4(m, 2, 3), at4(m, 3, 2), 67108864, 67108864);
    crate::fixed::lemma_abs_mul(at4(m, 2, 1), at4(m, 3, 3), 67108864, 67108864);
    crate::fixed::lemma_abs_mul(at4(m, 2, 3), at4(m, 3, 1), 67108864, 67108864);
    crate::fixed::lemma_abs_mul(at4(m, 2, 1), at4(m, 3, 2), 67108864, 67108864);
    crate::fixed::lemma_abs_mul(at4(m, 2, 2), at4(m, 3, 1), 67108864, 67108864);
    crate::fixed::lemma_abs_mul(at4(m, 1, 1), at4(m, 2, 2) * at4(m, 3, 3) - at4(m, 2, 3) * at4(m, 3, 2), 67108864, 9007199254740992);
    crate::fixed::lemma_abs_mul(at4(m, 1, 2), at4(m, 2, 1) * at4(m, 3, 3) - at4(m, 2, 3) * at4(m, 3, 1), 67108864, 9007199254740992);
    crate::fixed::lemma_abs_mul(at4(m, 1, 3), at4(m, 2, 1) * at4(m, 3, 2) - at4(m, 2, 2) * at4(m, 3, 1), 67108864, 9007199254740992);
    crate::fixed::lemma_abs_mul(at4(m, 0, 1), at4(m, 2, 2) * at4(m, 3, 3) - at4(m, 2, 3) * at4(m, 3, 2), 67108864, 9007199254740992);
    crate::fixed::lemma_abs_mul(at4(m, 0, 2), at4(m, 2, 1) * at4(m, 3, 3) - at4(m, 2, 3) * at4(m, 3, 1), 67108864, 9007199254740992);
    crate::fixed::lemma_abs_mul(at4(m, 0, 3), at4(m, 2, 1) * at4(m, 3, 2) - at4(m, 2, 2) * at4(m, 3, 1), 67108864, 9007199254740992);
    crate::fixed::lemma_abs_mul(at4(m, 1, 2), at4(m, 3, 3), 67108864, 67108864);
    crate::fixed::lemma_abs_mul(at4(m, 1, 3), at4(m, 3, 2), 67108864, 67108864);
    crate::fixed::lemma_abs_mul(at4(m, 1, 1), at4(m, 3, 3), 67108864, 67108864);
    crate::fixed::lemma_abs_mul(at4(m, 1, 3), at4(m, 3, 1), 67108864, 67108864);
    crate::fixed::lemma_abs_mul(at4(m, 1, 1), at4(m, 3, 2), 67108864, 67108864);
    crate::fixed::lemma_abs_mul(at4(m, 1, 2), at4(m, 3, 1), 67108864, 67108864);
    crate::fixed::lemma_abs_mul(at4(m, 0, 1), at4(m, 1, 2) * at4(m, 3, 3) - at4(m, 1, 3) * at4(m, 3, 2), 67108864, 9007199254740992);
    crate::fixed::lemma_abs_mul(at4(m, 0, 2), at4(m, 1, 1) * at4(m, 3, 3) - at4(m, 1, 3) * at4(m, 3, 1), 67108864, 9007199254740992);
    crate::fixed::lemma_abs_mul(at4(m, 0, 3), at4(m, 1, 1) * at4(m, 3, 2) - at4(m, 1, 2) * at4(m, 3, 1), 67108864, 9007199254740992);
    crate::fixed::lemma_abs_mul(at4(m, 1, 2), at4(m, 2, 3), 67108864, 67108864);
    crate::fixed::lemma_abs_mul(at4(m, 1, 3), at4(m, 2, 2), 67108864, 67108864);
    crate::fixed::lemma_abs_mul(at4(m, 1, 1), at4(m, 2, 3), 67108864, 67108864);
    crate::fixed::lemma_abs_mul(at4(m, 1, 3), at4(m, 2, 1), 67108864, 67108864);
    crate::fixed::lemma_abs_mul(at4(m, 1, 1), at4(m, 2, 2), 67108864, 67108864);
    crate::fixed::lemma_abs_mul(at4(m, 1, 2), at4(m, 2, 1), 67108864, 67108864);
    crate::fixed::lemma_abs_mul(at4(m, 0, 1), at4(m, 1, 2) * at4(m, 2, 3) - at4(m, 1, 3) * at4(m, 2, 2), 67108864, 9007199254740992);
    crate::fixed::lemma_abs_mul(at4(m, 0, 2), at4(m, 1, 1) * at4(m, 2, 3) - at4(m, 1, 3) * at4(m, 2, 1), 67108864, 9007199254740992);
    crate::fixed::lemma_abs_mul(at4(m, 0, 3), at4(m, 1, 1) * at4(m, 2, 2) - at4(m, 1, 2) * at4(m, 2, 1), 67108864, 9007199254740992);
    crate::fixed::lemma_abs_mul(at4(m, 2, 0), at4(m, 3, 3), 67108864, 67108864);
    crate::fixed::lemma_abs_mul(at4(m, 2, 3), at4(m, 3, 0), 67108864, 67108864);
    crate::fixed::lemma_abs_mul(at4(m, 2, 0), at4(m, 3, 2), 67108864, 67108864);
    crate::fixed::lemma_abs_mul(at4(m, 2, 2), at4(m, 3, 0), 67108864, 67108864);
    crate::fixed::lemma_abs_mul(at4(m, 1, 0), at4(m, 2, 2) * at4(m, 3, 3) - at4(m, 2, 3) * at4(m, 3, 2), 67108864, 9007199254740992);
    crate::fixed::lemma_abs_mul(at4(m, 1, 2), at4(m, 2, 0) * at4(m, 3, 3) - at4(m, 2, 3) * at4(m, 3, 0), 67108864, 9007199254740992);
    crate::fixed::lemma_abs_mul(at4(m, 1, 3), at4(m, 2, 0) * at4(m, 3, 2) - at4(m, 2, 2) * at4(m, 3, 0), 67108864, 9007199254740992);
    crate::fixed::lemma_abs_mul(at4(m, 0, 0), at4(m, 2, 2) * at4(m, 3, 3) - at4(m, 2, 3) * at4(m, 3, 2), 67108864, 9007199254740992);
    crate::fixed::lemma_abs_mul(at4(m, 0, 2), at4(m, 2, 0) * at4(m, 3, 3) - at4(m, 2, 3) * at4(m, 3, 0), 67108864, 9007199254740992);
    crate::fixed::lemma_abs_mul(at4(m, 0, 3), at4(m, 2, 0) * at4(m, 3, 2) - at4(m, 2, 2) * at4(m, 3, 0), 67108864, 9007199254740992);
    crate::fixed::lemma_abs_mul(at4(m, 1, 0), at4(m, 3, 3), 67108864, 67108864);
    crate::fixed::lemma_abs_mul(at4(m, 1, 3), at4(m, 3, 0), 67108864, 67108864);
    crate::fixed::lemma_abs_mul(at4(m, 1, 0), at4(m, 3, 2), 67108864, 67108864);
    crate::fixed::lemma_abs_mul(at4(m, 1, 2), at4(m, 3, 0), 67108864, 67108864);
    crate::fixed::lemma_abs_mul(at4(m, 0, 0), at4(m, 1, 2) * at4(m, 3, 3) - at4(m, 1, 3) * at4(m, 3, 2), 67108864, 9007199254740992);
    crate::fixed::lemma_abs_mul(at4(m, 0, 2), at4(m, 1, 0) * at4(m, 3, 3) - at4(m, 1, 3) * at4(m, 3, 0), 67108864, 9007199254740992);
    crate::fixed::lemma_abs_mul(at4(m, 0, 3), at4(m, 1, 0) * at4(m, 3, 2) - at4(m, 1, 2) * at4(m, 3, 0), 67108864, 9007199254740992);
    crate::fixed::lemma_abs_mul(at4(m, 1, 0), at4(m, 2, 3), 67108864, 67108864);
    crate::fixed::lemma_abs_mul(at4(m, 1, 3), at4(m, 2, 0), 67108864, 67108864);
    crate::fixed::lemma_abs_mul(at4(m, 1, 0), at4(m, 2, 2), 67108864, 67108864);
    crate::fixed::lemma_abs_mul(at4(m, 1, 2), at4(m, 2, 0), 67108864, 67108864);
    crate::fixed::lemma_abs_mul(at4(m, 0, 0), at4(m, 1, 2) * at4(m, 2, 3) - at4(m, 1, 3) * at4(m, 2, 2), 67108864, 9007199254740992);
    crate::fixed::lemma_abs_mul(at4(m, 0, 2), at4(m, 1, 0) * at4(m, 2, 3) - at4(m, 1, 3) * at4(m, 2, 0), 67108864, 9007199254740992);
    crate::fixed::lemma_abs_mul(at4(m, 0, 3), at4(m, 1, 0) * at4(m, 2, 2) - at4(m, 1, 2) * at4(m, 2, 0), 67108864, 9007199254740992);
    crate::fixed::lemma_abs_mul(at4(m, 2, 0), at4(m, 3, 1), 67108864, 67108864);
    crate::fixed::lemma_abs_mul(at4(m, 2, 1), at4(m, 3, 0), 67108864, 67108864);
    crate::fixed::lemma_abs_mul(at4(m, 1, 0), at4(m, 2, 1) * at4(m, 3, 3) - at4(m, 2, 3) * at4(m, 3, 1), 67108864, 9007199254740992);
    crate::fixed::lemma_abs_mul(at4(m, 1, 1), at4(m, 2, 0) * at4(m, 3, 3) - at4(m, 2, 3) * at4(m, 3, 0), 67108864, 9007199254740992);
    crate::fixed::lemma_abs_mul(at4(m, 1, 3), at4(m, 2, 0) * at4(m, 3, 1) - at4(m, 2, 1) * at4(m, 3, 0), 67108864, 9007199254740992);
    crate::fixed::lemma_abs_mul(at4(m, 0, 0), at4(m, 2, 1) * at4(m, 3, 3) - at4(m, 2, 3) * at4(m, 3, 1), 67108864, 9007199254740992);
    crate::fixed::lemma_abs_mul(at4(m, 0, 1), at4(m, 2, 0) * at4(m, 3, 3) - at4(m, 2, 3) * at4(m, 3, 0), 67108864, 9007199254740992);
    crate::fixed::lemma_abs_mul(at4(m, 0, 3), at4(m, 2, 0) * at4(m, 3, 1) - at4(m, 2, 1) * at4(m, 3, 0), 67108864, 9007199254740992);
    crate::fixed::lemma_abs_mul(at4(m, 1, 0), at4(m, 3, 1), 67108864, 67108864);
    crate::fixed::lemma_abs_mul(at4(m, 1, 1), at4(m, 3, 0), 67108864, 67108864);
    crate::fixed::lemma_abs_mul(at4(m, 0, 0), at4(m, 1, 1) * at4(m, 3, 3) - at4(m, 1, 3) * at4(m, 3, 1), 67108864, 9007199254740992);
    crate::fixed::lemma_abs_mul(at4(m, 0, 1), at4(m, 1, 0) * at4(m, 3, 3) - at4(m, 1, 3) * at4(m, 3, 0), 67108864, 9007199254740992);
    crate::fixed::lemma_abs_mul(at4(m, 0, 3), at4(m, 1, 0) * at4(m, 3, 1) - at4(m, 1, 1) * at4(m, 3, 0), 67108864, 9007199254740992);
    crate::fixed::lemma_abs_mul(at4(m, 1, 0), at4(m, 2, 1), 67108864, 67108864);
    crate::fixed::lemma_abs_mul(at4(m, 1, 1), at4(m, 2, 0), 67108864, 67108864);
    crate::fixed::lemma_abs_mul(at4(m, 0, 0), at4(m, 1, 1) * at4(m, 2, 3) - at4(m, 1, 3) * at4(m, 2, 1), 67108864, 9007199254740992);
    crate::fixed::lemma_abs_mul(at4(m, 0, 1), at4(m, 1, 0) * at4(m, 2, 3) - at4(m, 1, 3) * at4(m, 2, 0), 67108864, 9007199254740992);
    crate::fixed::lemma_abs_mul(at4(m, 0, 3), at4(m, 1, 0) * at4(m, 2, 1) - at4(m, 1, 1) * at4(m, 2, 0), 67108864, 9007199254740992);
    crate::fixed::lemma_abs_mul(at4(m, 1, 0), at4(m, 2, 1) * at4(m, 3, 2) - at4(m, 2, 2) * at4(m, 3, 1), 67108864, 9007199254740992);
    crate::fixed::lemma_abs_mul(at4(m, 1, 1), at4(m, 2, 0) * at4(m, 3, 2) - at4(m, 2, 2) * at4(m, 3, 0), 67108864, 9007199254740992);
    crate::fixed::lemma_abs_mul(at4(m, 1, 2), at4(m, 2, 0) * at4(m, 3, 1) - at4(m, 2, 1) * at4(m, 3, 0), 67108864, 9007199254740992);
    crate::fixed::lemma_abs_mul(at4(m, 0, 0), at4(m, 2, 1) * at4(m, 3, 2) - at4(m, 2, 2) * at4(m, 3, 1), 67108864, 9007199254740992);
    crate::fixed::lemma_abs_mul(at4(m, 0, 1), at4(m, 2, 0) * at4(m, 3, 2) - at4(m, 2, 2) * at4(m, 3, 0), 67108864, 9007199254740992);
    crate::fixed::lemma_abs_mul(at4(m, 0, 2), at4(m, 2, 0) * at4(m, 3, 1) - at4(m, 2, 1) * at4(m, 3, 0), 67108864, 9007199254740992);
    crate::fixed::lemma_abs_mul(at4(m, 0, 0), at4(m, 1, 1) * at4(m, 3, 2) - at4(m, 1, 2) * at4(m, 3, 1), 67108864, 9007199254740992);
    crate::fixed::lemma_abs_mul(at4(m, 0, 1), at4(m, 1, 0) * at4(m, 3, 2) - at4(m, 1, 2) * at4(m, 3, 0), 67108864, 9007199254740992);
    crate::fixed::lemma_abs_mul(at4(m, 0, 2), at4(m, 1, 0) * at4(m, 3, 1) - at4(m, 1, 1) * at4(m, 3, 0), 67108864, 9007199254740992);
    crate::fixed::lemma_abs_mul(at4(m, 0, 0), at4(m, 1, 1) * at4(m, 2, 2) - at4(m, 1, 2) * at4(m, 2, 1), 67108864, 9007199254740992);
    crate::fixed::lemma_abs_mul(at4(m, 0, 1), at4(m, 1, 0) * at4(m, 2, 2) - at4(m, 1, 2) * at4(m, 2, 0), 67108864, 9007199254740992);
    crate::fixed::lemma_abs_mul(at4(m, 0, 2), at4(m, 1, 0) * at4(m, 2, 1) - at4(m, 1, 1) * at4(m, 2, 0), 67108864, 9007199254740992);
    crate::fixed::lemma_abs_mul(at4(m, 0, 0), int_cof4(m, 0, 0), 67108864, 1813388729421943762059264);
    crate::fixed::lemma_abs_mul(at4(m, 0, 1), int_cof4(m, 0, 1), 67108864, 1813388729421943762059264);
    crate::fixed::lemma_abs_mul(at4(m, 0, 2), int_cof4(m, 0, 2), 67108864, 1813388729421943762059264);
    crate::fixed::lemma_abs_mul(at4(m, 0, 3), int_cof4(m, 0, 3), 67108864, 1813388729421943762059264);
    crate::fixed::lemma_abs_mul((SCALE as int) * (SCALE as int), int_cof4(m, 0, 0), 4294967296, 1813388729421943762059264);
    crate::fixed::lemma_abs_mul((SCALE as int) * (SCALE as int), int_cof4(m, 0, 1), 4294967296, 1813388729421943762059264);
    crate::fixed::lemma_abs_mul((SCALE as int) * (SCALE as int), int_cof4(m, 0, 2), 4294967296, 1813388729421943762059264);
    crate::fixed::lemma_abs_mul((SCALE as int) * (SCALE as int), int_cof4(m, 0, 3), 4294967296, 1813388729421943762059264);
    crate::fixed::lemma_abs_mul((SCALE as int) * (SCALE as int), int_cof4(m, 1, 0), 4294967296, 1813388729421943762059264);
    crate::fixed::lemma_abs_mul((SCALE as int) * (SCALE as int), int_cof4(m, 1, 1), 4294967296, 1813388729421943762059264);
    crate::fixed::lemma_abs_mul((SCALE as int) * (SCALE as int), int_cof4(m, 1, 2), 4294967296, 1813388729421943762059264);
    crate::fixed::lemma_abs_mul((SCALE as int) * (SCALE as int), int_cof4(m, 1, 3), 4294967296, 1813388729421943762059264);
    crate::fixed::lemma_abs_mul((SCALE as int) * (SCALE as int), int_cof4(m, 2, 0), 4294967296, 1813388729421943762059264);
    crate::fixed::lemma_abs_mul((SCALE as int) * (SCALE as int), int_cof4(m, 2, 1), 4294967296, 1813388729421943762059264);
    crate::fixed::lemma_abs_mul((SCALE as int) * (SCALE as int), int_cof4(m, 2, 2), 4294967296, 1813388729421943762059264);
    crate::fixed::lemma_abs_mul((SCALE as int) * (SCALE as int), int_cof4(m, 2, 3), 4294967296, 1813388729421943762059264);
    crate::fixed::lemma_abs_mul((SCALE as int) * (SCALE as int), int_cof4(m, 3, 0), 4294967296, 1813388729421943762059264);
    crate::fixed::lemma_abs_mul((SCALE as int) * (SCALE as int), int_cof4(m, 3, 1), 4294967296, 1813388729421943762059264);
    crate::fixed::lemma_abs_mul((SCALE as int) * (SCALE as int), int_cof4(m, 3, 2), 4294967296, 1813388729421943762059264);
    crate::fixed::lemma_abs_mul((SCALE as int) * (SCALE as int), int_cof4(m, 3, 3), 4294967296, 1813388729421943762059264);
}

impl Matrix4 {
    pub fn new(data: [[i64; 4]; 4]) -> (r: Matrix4)
        ensures
            r.m == data,
    {
        Matrix4 { m: data }
    }

    /// The minor matrix: this matrix with column `remove_x` and row
    /// `remove_y` struck out.
    pub fn minor_matrix(&self, remove_x: usize, remove_y: usize) -> (r: Matrix3)
        requires
            remove_x < 4,
            remove_y < 4,
        ensures
            at3(r, 0, 0) == at4(*self, skip_idx(remove_y as int, 0), skip_idx(remove_x as int, 0)),
            at3(r, 0, 1) == at4(*self, skip_idx(remove_y as int, 0), skip_idx(remove_x as int, 1)),
            at3(r, 0, 2) == at4(*self, skip_idx(remove_y as int, 0), skip_idx(remove_x as int, 2)),
            at3(r, 1, 0) == at4(*self, skip_idx(remove_y as int, 1), skip_idx(remove_x as int, 0)),
            at3(r, 1, 1) == at4(*self, skip_idx(remove_y as int, 1), skip_idx(remove_x as int, 1)),
            at3(r, 1, 2) == at4(*self, skip_idx(remove_y as int, 1), skip_idx(remove_x as int, 2)),
            at3(r, 2, 0) == at4(*self, skip_idx(remove_y as int, 2), skip_idx(remove_x as int, 0)),
            at3(r, 2, 1) == at4(*self, skip_idx(remove_y as int, 2), skip_idx(remove_x as int, 1)),
            at3(r, 2, 2) == at4(*self, skip_idx(remove_y as int, 2), skip_idx(remove_x as int, 2)),
    {
        let r0: usize = if remove_y == 0 { 1 } else { 0 };
        let r1: usize = if remove_y <= 1 { 2 } else { 1 };
        let r2: usize = if remove_y <= 2 { 3 } else { 2 };
        let c0: usize = if remove_x == 0 { 1 } else { 0 };
        let c1: usize = if remove_x <= 1 { 2 } else { 1 };
        let c2: usize = if remove_x <= 2 { 3 } else { 2 };
        Matrix3 {
            m: [
                [self.m[r0][c0], self.m[r0][c1], self.m[r0][c2]],
                [self.m[r1][c0], self.m[r1][c1], self.m[r1][c2]],
                [self.m[r2][c0], self.m[r2][c1], self.m[r2][c2]],
            ],
        }
    }

    /// The fixed-point determinant: the exact integer determinant of the raw
    /// entries, scaled back once.
    pub fn determinant(&self) -> (r: i64)
        requires
            bounded4x4(*self, MAT_BOUND as int),
        ensures
            r as int == tdiv(int_det4(*self), (SCALE as int) * (SCALE as int) * (SCALE as int)),
    {
        proof {
            lemma_mat4_cofactor_bounds(*self);
            crate::fixed::lemma_tdiv_abs(
                int_det4(*self),
                (SCALE as int) * (SCALE as int) * (SCALE as int),
                486777830487640090174734030864384,
            );
        }
        let mut mm: [[i128; 4]; 4] = [[0; 4]; 4];
        let mut wr: usize = 0;
        while wr < 4
            invariant
                wr <= 4,
                forall|a: int, b: int| 0 <= a < wr && 0 <= b < 4 ==> mm[a][b] == at4(*self, a, b),
            decreases 4 - wr,
        {
            mm[wr][0] = self.m[wr][0] as i128;
            mm[wr][1] = self.m[wr][1] as i128;
            mm[wr][2] = self.m[wr][2] as i128;
            mm[wr][3] = self.m[wr][3] as i128;
            wr += 1;
        }
        let cof00: i128 = (mm[1][1] * (mm[2][2] * mm[3][3] - mm[2][3] * mm[3][2]) - mm[1][2] * (mm[2][1] * mm[3][3] - mm[2][3] * mm[3][1]) + mm[1][3] * (mm[2][1] * mm[3][2] - mm[2][2] * mm[3][1]));
        let cof01: i128 = -(mm[1][0] * (mm[2][2] * mm[3][3] - mm[2][3] * mm[3][2]) - mm[1][2] * (mm[2][0] * mm[3][3] - mm[2][3] * mm[3][0]) + mm[1][3] * (mm[2][0] * mm[3][2] - mm[2][2] * mm[3][0]));
        let cof02: i128 = (mm[1][0] * (mm[2][1] * mm[3][3] - mm[2][3] * mm[3][1]) - mm[1][1] * (mm[2][0] * mm[3][3] - mm[2][3] * mm[3][0]) + mm[1][3] * (mm[2][0] * mm[3][1] - mm[2][1] * mm[3][0]));
        let cof03: i128 = -(mm[1][0] * (mm[2][1] * mm[3][2] - mm[2][2] * mm[3][1]) - mm[1][1] * (mm[2][0] * mm[3][2] - mm[2][2] * mm[3][0]) + mm[1][2] * (mm[2][0] * mm[3][1] - mm[2][1] * mm[3][0]));
        let det: i128 = mm[0][0] * cof00 + mm[0][1] * cof01 + mm[0][2] * cof02 + mm[0][3] * cof03;
        let sss: i128 = (SCALE as i128) * (SCALE as i128) * (SCALE as i128);
        (det / sss) as i64
    }
}

impl Matrix4 {
    /// The inverse by the adjugate method, or `None` when the matrix is
    /// singular or an entry of the inverse does not fit in a raw scalar.
    pub fn checked_inverse(&self) -> (r: Option<Matrix4>)
        requires
            bounded4x4(*self, MAT_BOUND as int),
        ensures
            r is Some <==> (int_det4(*self) != 0 && inv4_fits(*self)),
            r matches Some(inv) ==> {
                &&& at4(inv, 0, 0) == inv4_entry(*self, 0, 0)
                &&& at4(inv, 0, 1) == inv4_entry(*self, 0, 1)
                &&& at4(inv, 0, 2) == inv4_entry(*self, 0, 2)
                &&& at4(inv, 0, 3) == inv4_entry(*self, 0, 3)
                &&& at4(inv, 1, 0) == inv4_entry(*self, 1, 0)
                &&& at4(inv, 1, 1) == inv4_entry(*self, 1, 1)
                &&& at4(inv, 1, 2) == inv4_entry(*self, 1, 2)
                &&& at4(inv, 1, 3) == inv4_entry(*self, 1, 3)
                &&& at4(inv, 2, 0) == inv4_entry(*self, 2, 0)
                &&& at4(inv, 2, 1) == inv4_entry(*self, 2, 1)
                &&& at4(inv, 2, 2) == inv4_entry(*self, 2, 2)
                &&& at4(inv, 2, 3) == inv4_entry(*self, 2, 3)
                &&& at4(inv, 3, 0) == inv4_entry(*self, 3, 0)
                &&& at4(inv, 3, 1) == inv4_entry(*self, 3, 1)
                &&& at4(inv, 3, 2) == inv4_entry(*self, 3, 2)
                &&& at4(inv, 3, 3) == inv4_entry(*self, 3, 3)
            },
    {
        proof {
            lemma_mat4_cofactor_bounds(*self);
        }
        let mut mm: [[i128; 4]; 4] = [[0; 4]; 4];
        let mut wr: usize = 0;
        while wr < 4
            invariant
                wr <= 4,
                forall|a: int, b: int| 0 <= a < wr && 0 <= b < 4 ==> mm[a][b] == at4(*self, a, b),
            decreases 4 - wr,
        {
            mm[wr][0] = self.m[wr][0] as i128;
            mm[wr][1] = self.m[wr][1] as i128;
            mm[wr][2] = self.m[wr][2] as i128;
            mm[wr][3] = self.m[wr][3] as i128;
            wr += 1;
        }
        let cof00: i128 = (mm[1][1] * (mm[2][2] * mm[3][3] - mm[2][3] * mm[3][2]) - mm[1][2] * (mm[2][1] * mm[3][3] - mm[2][3] * mm[3][1]) + mm[1][3] * (mm[2][1] * mm[3][2] - mm[2][2] * mm[3][1]));
        let cof01: i128 = -(mm[1][0] * (mm[2][2] * mm[3][3] - mm[2][3] * mm[3][2]) - mm[1][2] * (mm[2][0] * mm[3][3] - mm[2][3] * mm[3][0]) + mm[1][3] * (mm[2][0] * mm[3][2] - mm[2][2] * mm[3][0]));
        let cof02: i128 = (mm[1][0] * (mm[2][1] * mm[3][3] - mm[2][3] * mm[3][1]) - mm[1][1] * (mm[2][0] * mm[3][3] - mm[2][3] * mm[3][0]) + mm[1][3] * (mm[2][0] * mm[3][1] - mm[2][1] * mm[3][0]));
        let cof03: i128 = -(mm[1][0] * (mm[2][1] * mm[3][2] - mm[2][2] * mm[3][1]) - mm[1][1] * (mm[2][0] * mm[3][2] - mm[2][2] * mm[3][0]) + mm[1][2] * (mm[2][0] * mm[3][1] - mm[2][1] * mm[3][0]));
        let cof10: i128 = -(mm[0][1] * (mm[2][2] * mm[3][3] - mm[2][3] * mm[3][2]) - mm[0][2] * (mm[2][1] * mm[3][3] - mm[2][3] * mm[3][1]) + mm[0][3] * (mm[2][1] * mm[3][2] - mm[2][2] * mm[3][1]));
        let cof11: i128 = (mm[0][0] * (mm[2][2] * mm[3][3] - mm[2][3] * mm[3][2]) - mm[0][2] * (mm[2][0] * mm[3][3] - mm[2][3] * mm[3][0]) + mm[0][3] * (mm[2][0] * mm[3][2] - mm[2][2] * mm[3][0]));
        let cof12: i128 = -(mm[0][0] * (mm[2][1] * mm[3][3] - mm[2][3] * mm[3][1]) - mm[0][1] * (mm[2][0] * mm[3][3] - mm[2][3] * mm[3][0]) + mm[0][3] * (mm[2][0] * mm[3][1] - mm[2][1] * mm[3][0]));
        let cof13: i128 = (mm[0][0] * (mm[2][1] * mm[3][2] - mm[2][2] * mm[3][1]) - mm[0][1] * (mm[2][0] * mm[3][2] - mm[2][2] * mm[3][0]) + mm[0][2] * (mm[2][0] * mm[3][1] - mm[2][1] * mm[3][0]));
        let cof20: i128 = (mm[0][1] * (mm[1][2] * mm[3][3] - mm[1][3] * mm[3][2]) - mm[0][2] * (mm[1][1] * mm[3][3] - mm[1][3] * mm[3][1]) + mm[0][3] * (mm[1][1] * mm[3][2] - mm[1][2] * mm[3][1]));
        let cof21: i128 = -(mm[0][0] * (mm[1][2] * mm[3][3] - mm[1][3] * mm[3][2]) - mm[0][2] * (mm[1][0] * mm[3][3] - mm[1][3] * mm[3][0]) + mm[0][3] * (mm[1][0] * mm[3][2] - mm[1][2] * mm[3][0]));
        let cof22: i128 = (mm[0][0] * (mm[1][1] * mm[3][3] - mm[1][3] * mm[3][1]) - mm[0][1] * (mm[1][0] * mm[3][3] - mm[1][3] * mm[3][0]) + mm[0][3] * (mm[1][0] * mm[3][1] - mm[1][1] * mm[3][0]));
        let cof23: i128 = -(mm[0][0] * (mm[1][1] * mm[3][2] - mm[1][2] * mm[3][1]) - mm[0][1] * (mm[1][0] * mm[3][2] - mm[1][2] * mm[3][0]) + mm[0][2] * (mm[1][0] * mm[3][1] - mm[1][1] * mm[3][0]));
        let cof30: i128 = -(mm[0][1] * (mm[1][2] * mm[2][3] - mm[1][3] * mm[2][2]) - mm[0][2] * (mm[1][1] * mm[2][3] - mm[1][3] * mm[2][1]) + mm[0][3] * (mm[1][1] * mm[2][2] - mm[1][2] * mm[2][1]));
        let cof31: i128 = (mm[0][0] * (mm[1][2] * mm[2][3] - mm[1][3] * mm[2][2]) - mm[0][2] * (mm[1][0] * mm[2][3] - mm[1][3] * mm[2][0]) + mm[0][3] * (mm[1][0] * mm[2][2] - mm[1][2] * mm[2][0]));
        let cof32: i128 = -(mm[0][0] * (mm[1][1] * mm[2][3] - mm[1][3] * mm[2][1]) - mm[0][1] * (mm[1][0] * mm[2][3] - mm[1][3] * mm[2][0]) + mm[0][3] * (mm[1][0] * mm[2][1] - mm[1][1] * mm[2][0]));
        let cof33: i128 = (mm[0][0] * (mm[1][1] * mm[2][2] - mm[1][2] * mm[2][1]) - mm[0][1] * (mm[1][0] * mm[2][2] - mm[1][2] * mm[2][0]) + mm[0][2] * (mm[1][0] * mm[2][1] - mm[1][1] * mm[2][0]));
        let det: i128 = mm[0][0] * cof00 + mm[0][1] * cof01 + mm[0][2] * cof02 + mm[0][3] * cof03;
        if det == 0 {
            return None;
        }
        proof {
            crate::fixed::lemma_tdiv_abs_any(
                (SCALE as int) * (SCALE as int) * int_cof4(*self, 0, 0),
                int_det4(*self),
                7788445287802241442795744493830144,
            );
            crate::fixed::lemma_tdiv_abs_any(
                (SCALE as int) * (SCALE as int) * int_cof4(*self, 0, 1),
                int_det4(*self),
                7788445287802241442795744493830144,
            );
            crate::fixed::lemma_tdiv_abs_any(
                (SCALE as int) * (SCALE as int) * int_cof4(*self, 0, 2),
                int_det4(*self),
                7788445287802241442795744493830144,
            );
            crate::fixed::lemma_tdiv_abs_any(
                (SCALE as int) * (SCALE as int) * int_cof4(*self, 0, 3),
                int_det4(*self),
                7788445287802241442795744493830144,
            );
            crate::fixed::lemma_tdiv_abs_any(
                (SCALE as int) * (SCALE as int) * int_cof4(*self, 1, 0),
                int_det4(*self),
                7788445287802241442795744493830144,
            );
            crate::fixed::lemma_tdiv_abs_any(
                (SCALE as int) * (SCALE as int) * int_cof4(*self, 1, 1),
                int_det4(*self),
                7788445287802241442795744493830144,
            );
            crate::fixed::lemma_tdiv_abs_any(
                (SCALE as int) * (SCALE as int) * int_cof4(*self, 1, 2),
                int_det4(*self),
                7788445287802241442795744493830144,
            );
            crate::fixed::lemma_tdiv_abs_any(
                (SCALE as int) * (SCALE as int) * int_cof4(*self, 1, 3),
                int_det4(*self),
                7788445287802241442795744493830144,
            );
            crate::fixed::lemma_tdiv_abs_any(
                (SCALE as int) * (SCALE as int) * int_cof4(*self, 2, 0),
                int_det4(*self),
                7788445287802241442795744493830144,
            );
            crate::fixed::lemma_tdiv_abs_any(
                (SCALE as int) * (SCALE as int) * int_cof4(*self, 2, 1),
                int_det4(*self),
                7788445287802241442795744493830144,
            );
            crate::fixed::lemma_tdiv_abs_any(
                (SCALE as int) * (SCALE as int) * int_cof4(*self, 2, 2),
                int_det4(*self),
                7788445287802241442795744493830144,
            );
            crate::fixed::lemma_tdiv_abs_any(
                (SCALE as int) * (SCALE as int) * int_cof4(*self, 2, 3),
                int_det4(*self),
                7788445287802241442795744493830144,
            );
            crate::fixed::lemma_tdiv_abs_any(
                (SCALE as int) * (SCALE as int) * int_cof4(*self, 3, 0),
                int_det4(*self),
                7788445287802241442795744493830144,
            );
            crate::fixed::lemma_tdiv_abs_any(
                (SCALE as int) * (SCALE as int) * int_cof4(*self, 3, 1),
                int_det4(*self),
                7788445287802241442795744493830144,
            );
            crate::fixed::lemma_tdiv_abs_any(
                (SCALE as int) * (SCALE as int) * int_cof4(*self, 3, 2),
                int_det4(*self),
                7788445287802241442795744493830144,
            );
            crate::fixed::lemma_tdiv_abs_any(
                (SCALE as int) * (SCALE as int) * int_cof4(*self, 3, 3),
                int_det4(*self),
                7788445287802241442795744493830144,
            );
        }
        let ss: i128 = (SCALE as i128) * (SCALE as i128);
        let e00: i128 = ss * cof00 / det;
        let e01: i128 = ss * cof10 / det;
        let e02: i128 = ss * cof20 / det;
        let e03: i128 = ss * cof30 / det;
        let e10: i128 = ss * cof01 / det;
        let e11: i128 = ss * cof11 / det;
        let e12: i128 = ss * cof21 / det;
        let e13: i128 = ss * cof31 / det;
        let e20: i128 = ss * cof02 / det;
        let e21: i128 = ss * cof12 / det;
        let e22: i128 = ss * cof22 / det;
        let e23: i128 = ss * cof32 / det;
        let e30: i128 = ss * cof03 / det;
        let e31: i128 = ss * cof13 / det;
        let e32: i128 = ss * cof23 / det;
        let e33: i128 = ss * cof33 / det;
        let min: i128 = i64::MIN as i128;
        let max: i128 = i64::MAX as i128;
        if e00 < min || e00 > max || e01 < min || e01 > max || e02 < min || e02 > max || e03 < min || e03 > max || e10 < min || e10 > max || e11 < min || e11 > max || e12 < min || e12 > max || e13 < min || e13 > max || e20 < min || e20 > max || e21 < min || e21 > max || e22 < min || e22 > max || e23 < min || e23 > max || e30 < min || e30 > max || e31 < min || e31 > max || e32 < min || e32 > max || e33 < min || e33 > max {
            return None;
        }
        Some(
            Matrix4 {
                m: [
                    [e00 as i64, e01 as i64, e02 as i64, e03 as i64],
                    [e10 as i64, e11 as i64, e12 as i64, e13 as i64],
                    [e20 as i64, e21 as i64, e22 as i64, e23 as i64],
                    [e30 as i64, e31 as i64, e32 as i64, e33 as i64],
                ],
            },
        )
    }

    /// The inverse of a nonsingular 4 by 4 matrix whose inverse entries
    /// fit; `checked_inverse` rejects the others at run time instead.
    pub fn inverse(&self) -> (r: Matrix4)
        requires
            bounded4x4(*self, MAT_BOUND as int),
            int_det4(*self) != 0,
            inv4_fits(*self),
        ensures
            at4(r, 0, 0) == inv4_entry(*self, 0, 0),
            at4(r, 0, 1) == inv4_entry(*self, 0, 1),
            at4(r, 0, 2) == inv4_entry(*self, 0, 2),
            at4(r, 0, 3) == inv4_entry(*self, 0, 3),
            at4(r, 1, 0) == inv4_entry(*self, 1, 0),
            at4(r, 1, 1) == inv4_entry(*self, 1, 1),
            at4(r, 1, 2) == inv4_entry(*self, 1, 2),
            at4(r, 1, 3) == inv4_entry(*self, 1, 3),
            at4(r, 2, 0) == inv4_entry(*self, 2, 0),
            at4(r, 2, 1) == inv4_entry(*self, 2, 1),
            at4(r, 2, 2) == inv4_entry(*self, 2, 2),
            at4(r, 2, 3) == inv4_entry(*self, 2, 3),
            at4(r, 3, 0) == inv4_entry(*self, 3, 0),
            at4(r, 3, 1) == inv4_entry(*self, 3, 1),
            at4(r, 3, 2) == inv4_entry(*self, 3, 2),
            at4(r, 3, 3) == inv4_entry(*self, 3, 3),
    {
        match self.checked_inverse() {
            Some(r) => r,
            None => {
                proof {
                    assert(false);
                }
                Matrix4 { m: [[0, 0, 0, 0], [0, 0, 0, 0], [0, 0, 0, 0], [0, 0, 0, 0]] }
            },
        }
    }
}

/// The 3 by 3 determinant form as its six signed triple products.
proof fn lemma_det3_of_monomials(a: int, b: int, c: int, d: int, e: int, f: int, g: int, h: int, i: int)
    ensures
        int_det3_of(a, b, c, d, e, f, g, h, i) == (a * e) * i - (a * f) * h - (b * d) * i + (b * f) * g + (c * d) * h - (c * e) * g,
{
    assert(a * (e * i - f * h) == a * (e * i) - a * (f * h)) by (nonlinear_arith);
    assert(b * (d * i - f * g) == b * (d * i) - b * (f * g)) by (nonlinear_arith);
    assert(c * (d * h - e * g) == c * (d * h) - c * (e * g)) by (nonlinear_arith);
    assert(a * (e * i) == (a * e) * i) by (nonlinear_arith);
    assert(a * (f * h) == (a * f) * h) by (nonlinear_arith);
    assert(b * (d * i) == (b * d) * i) by (nonlinear_arith);
    assert(b * (f * g) == (b * f) * g) by (nonlinear_arith);
    assert(c * (d * h) == (c * d) * h) by (nonlinear_arith);
    assert(c * (e * g) == (c * e) * g) by (nonlinear_arith);
}

/// Distributing a six-term sum over a product, on either side, with
/// or without an overall sign.
proof fn lemma_distrib6(t1: int, t2: int, t3: int, t4: int, t5: int, t6: int, v: int)
    ensures
        (t1 - t2 - t3 + t4 + t5 - t6) * v == t1 * v - t2 * v - t3 * v + t4 * v + t5 * v - t6 * v,
        (-(t1 - t2 - t3 + t4 + t5 - t6)) * v == -(t1 * v) + t2 * v + t3 * v - t4 * v - t5 * v + t6 * v,
        v * (t1 - t2 - t3 + t4 + t5 - t6) == v * t1 - v * t2 - v * t3 + v * t4 + v * t5 - v * t6,
        v * (-(t1 - t2 - t3 + t4 + t5 - t6)) == -(v * t1) + v * t2 + v * t3 - v * t4 - v * t5 + v * t6,
{
    assert((t1 - t2 - t3 + t4 + t5 - t6) * v == t1 * v - t2 * v - t3 * v + t4 * v + t5 * v - t6 * v) by (nonlinear_arith);
    assert((-(t1 - t2 - t3 + t4 + t5 - t6)) * v == -(t1 * v) + t2 * v + t3 * v - t4 * v - t5 * v + t6 * v) by (nonlinear_arith);
    assert(v * (t1 - t2 - t3 + t4 + t5 - t6) == v * t1 - v * t2 - v * t3 + v * t4 + v * t5 - v * t6) by (nonlinear_arith);
    assert(v * (-(t1 - t2 - t3 + t4 + t5 - t6)) == -(v * t1) + v * t2 + v * t3 - v * t4 - v * t5 + v * t6) by (nonlinear_arith);
}

/// Cell (0, 0) of the transposed cofactors times the matrix.
proof fn lemma_cof4_cell_00(x00: int, x01: int, x02: int, x03: int, x10: int, x11: int, x12: int, x13: int, x20: int, x21: int, x22: int, x23: int, x30: int, x31: int, x32: int, x33: int)
    ensures
        int_det3_of(x11, x12, x13, x21, x22, x23, x31, x32, x33) * x00 + (-int_det3_of(x01, x02, x03, x21, x22, x23, x31, x32, x33)) * x10 + int_det3_of(x01, x02, x03, x11, x12, x13, x31, x32, x33) * x20 + (-int_det3_of(x01, x02, x03, x11, x12, x13, x21, x22, x23)) * x30 == ((x00 * x11) * x22) * x33 - ((x00 * x11) * x23) * x32 - ((x00 * x12) * x21) * x33 + ((x00 * x12) * x23) * x31 + ((x00 * x13) * x21) * x32 - ((x00 * x13) * x22) * x31 - ((x01 * x10) * x22) * x33 + ((x01 * x10) * x23) * x32 + ((x01 * x12) * x20) * x33 - ((x01 * x12) * x23) * x30 - ((x01 * x13) * x20) * x32 + ((x01 * x13) * x22) * x30 + ((x02 * x10) * x21) * x33 - ((x02 * x10) * x23) * x31 - ((x02 * x11) * x20) * x33 + ((x02 * x11) * x23) * x30 + ((x02 * x13) * x20) * x31 - ((x02 * x13) * x21) * x30 - ((x03 * x10) * x21) * x32 + ((x03 * x10) * x22) * x31 + ((x03 * x11) * x20) * x32 - ((x03 * x11) * x22) * x30 - ((x03 * x12) * x20) * x31 + ((x03 * x12) * x21) * x30,
{
    lemma_det3_of_monomials(x11, x12, x13, x21, x22, x23, x31, x32, x33);
    lemma_distrib6((x11 * x22) * x33, (x11 * x23) * x32, (x12 * x21) * x33, (x12 * x23) * x31, (x13 * x21) * x32, (x13 * x22) * x31, x00);
    assert(((x11 * x22) * x33) * x00 == ((x00 * x11) * x22) * x33) by (nonlinear_arith);
    assert(((x11 * x23) * x32) * x00 == ((x00 * x11) * x23) * x32) by (nonlinear_arith);
    assert(((x12 * x21) * x33) * x00 == ((x00 * x12) * x21) * x33) by (nonlinear_arith);
    assert(((x12 * x23) * x31) * x00 == ((x00 * x12) * x23) * x31) by (nonlinear_arith);
    assert(((x13 * x21) * x32) * x00 == ((x00 * x13) * x21) * x32) by (nonlinear_arith);
    assert(((x13 * x22) * x31) * x00 == ((x00 * x13) * x22) * x31) by (nonlinear_arith);
    lemma_det3_of_monomials(x01, x02, x03, x21, x22, x23, x31, x32, x33);
    lemma_distrib6((x01 * x22) * x33, (x01 * x23) * x32, (x02 * x21) * x33, (x02 * x23) * x31, (x03 * x21) * x32, (x03 * x22) * x31, x10);
    assert(((x01 * x22) * x33) * x10 == ((x01 * x10) * x22) * x33) by (nonlinear_arith);
    assert(((x01 * x23) * x32) * x10 == ((x01 * x10) * x23) * x32) by (nonlinear_arith);
    assert(((x02 * x21) * x33) * x10 == ((x02 * x10) * x21) * x33) by (nonlinear_arith);
    assert(((x02 * x23) * x31) * x10 == ((x02 * x10) * x23) * x31) by (nonlinear_arith);
    assert(((x03 * x21) * x32) * x10 == ((x03 * x10) * x21) * x32) by (nonlinear_arith);
    assert(((x03 * x22) * x31) * x10 == ((x03 * x10) * x22) * x31) by (nonlinear_arith);
    lemma_det3_of_monomials(x01, x02, x03, x11, x12, x13, x31, x32, x33);
    lemma_distrib6((x01 * x12) * x33, (x01 * x13) * x32, (x02 * x11) * x33, (x02 * x13) * x31, (x03 * x11) * x32, (x03 * x12) * x31, x20);
    assert(((x01 * x12) * x33) * x20 == ((x01 * x12) * x20) * x33) by (nonlinear_arith);
    assert(((x01 * x13) * x32) * x20 == ((x01 * x13) * x20) * x32) by (nonlinear_arith);
    assert(((x02 * x11) * x33) * x20 == ((x02 * x11) * x20) * x33) by (nonlinear_arith);
    assert(((x02 * x13) * x31) * x20 == ((x02 * x13) * x20) * x31) by (nonlinear_arith);
    assert(((x03 * x11) * x32) * x20 == ((x03 * x11) * x20) * x32) by (nonlinear_arith);
    assert(((x03 * x12) * x31) * x20 == ((x03 * x12) * x20) * x31) by (nonlinear_arith);
    lemma_det3_of_monomials(x01, x02, x03, x11, x12, x13, x21, x22, x23);
    lemma_distrib6((x01 * x12) * x23, (x01 * x13) * x22, (x02 * x11) * x23, (x02 * x13) * x21, (x03 * x11) * x22, (x03 * x12) * x21, x30);
    assert(((x01 * x12) * x23) * x30 == ((x01 * x12) * x23) * x30) by (nonlinear_arith);
    assert(((x01 * x13) * x22) * x30 == ((x01 * x13) * x22) * x30) by (nonlinear_arith);
    assert(((x02 * x11) * x23) * x30 == ((x02 * x11) * x23) * x30) by (nonlinear_arith);
    assert(((x02 * x13) * x21) * x30 == ((x02 * x13) * x21) * x30) by (nonlinear_arith);
    assert(((x03 * x11) * x22) * x30 == ((x03 * x11) * x22) * x30) by (nonlinear_arith);
    assert(((x03 * x12) * x21) * x30 == ((x03 * x12) * x21) * x30) by (nonlinear_arith);
}

/// Cell (0, 1) of the transposed cofactors times the matrix.
proof fn lemma_cof4_cell_01(x00: int, x01: int, x02: int, x03: int, x10: int, x11: int, x12: int, x13: int, x20: int, x21: int, x22: int, x23: int, x30: int, x31: int, x32: int, x33: int)
    ensures
        int_det3_of(x11, x12, x13, x21, x22, x23, x31, x32, x33) * x01 + (-int_det3_of(x01, x02, x03, x21, x22, x23, x31, x32, x33)) * x11 + int_det3_of(x01, x02, x03, x11, x12, x13, x31, x32, x33) * x21 + (-int_det3_of(x01, x02, x03, x11, x12, x13, x21, x22, x23)) * x31 == 0,
{
    lemma_det3_of_monomials(x11, x12, x13, x21, x22, x23, x31, x32, x33);
    lemma_distrib6((x11 * x22) * x33, (x11 * x23) * x32, (x12 * x21) * x33, (x12 * x23) * x31, (x13 * x21) * x32, (x13 * x22) * x31, x01);
    assert(((x11 * x22) * x33) * x01 == ((x01 * x11) * x22) * x33) by (nonlinear_arith);
    assert(((x11 * x23) * x32) * x01 == ((x01 * x11) * x23) * x32) by (nonlinear_arith);
    assert(((x12 * x21) * x33) * x01 == ((x01 * x12) * x21) * x33) by (nonlinear_arith);
    assert(((x12 * x23) * x31) * x01 == ((x01 * x12) * x23) * x31) by (nonlinear_arith);
    assert(((x13 * x21) * x32) * x01 == ((x01 * x13) * x21) * x32) by (nonlinear_arith);
    assert(((x13 * x22) * x31) * x01 == ((x01 * x13) * x22) * x31) by (nonlinear_arith);
    lemma_det3_of_monomials(x01, x02, x03, x21, x22, x23, x31, x32, x33);
    lemma_distrib6((x01 * x22) * x33, (x01 * x23) * x32, (x02 * x21) * x33, (x02 * x23) * x31, (x03 * x21) * x32, (x03 * x22) * x31, x11);
    assert(((x01 * x22) * x33) * x11 == ((x01 * x11) * x22) * x33) by (nonlinear_arith);
    assert(((x01 * x23) * x32) * x11 == ((x01 * x11) * x23) * x32) by (nonlinear_arith);
    assert(((x02 * x21) * x33) * x11 == ((x02 * x11) * x21) * x33) by (nonlinear_arith);
    assert(((x02 * x23) * x31) * x11 == ((x02 * x11) * x23) * x31) by (nonlinear_arith);
    assert(((x03 * x21) * x32) * x11 == ((x03 * x11) * x21) * x32) by (nonlinear_arith);
    assert(((x03 * x22) * x31) * x11 == ((x03 * x11) * x22) * x31) by (nonlinear_arith);
    lemma_det3_of_monomials(x01, x02, x03, x11, x12, x13, x31, x32, x33);
    lemma_distrib6((x01 * x12) * x33, (x01 * x13) * x32, (x02 * x11) * x33, (x02 * x13) * x31, (x03 * x11) * x32, (x03 * x12) * x31, x21);
    assert(((x01 * x12) * x33) * x21 == ((x01 * x12) * x21) * x33) by (nonlinear_arith);
    assert(((x01 * x13) * x32) * x21 == ((x01 * x13) * x21) * x32) by (nonlinear_arith);
    assert(((x02 * x11) * x33) * x21 == ((x02 * x11) * x21) * x33) by (nonlinear_arith);
    assert(((x02 * x13) * x31) * x21 == ((x02 * x13) * x21) * x31) by (nonlinear_arith);
    assert(((x03 * x11) * x32) * x21 == ((x03 * x11) * x21) * x32) by (nonlinear_arith);
    assert(((x03 * x12) * x31) * x21 == ((x03 * x12) * x21) * x31) by (nonlinear_arith);
    lemma_det3_of_monomials(x01, x02, x03, x11, x12, x13, x21, x22, x23);
    lemma_distrib6((x01 * x12) * x23, (x01 * x13) * x22, (x02 * x11) * x23, (x02 * x13) * x21, (x03 * x11) * x22, (x03 * x12) * x21, x31);
    assert(((x01 * x12) * x23) * x31 == ((x01 * x12) * x23) * x31) by (nonlinear_arith);
    assert(((x01 * x13) * x22) * x31 == ((x01 * x13) * x22) * x31) by (nonlinear_arith);
    assert(((x02 * x11) * x23) * x31 == ((x02 * x11) * x23) * x31) by (nonlinear_arith);
    assert(((x02 * x13) * x21) * x31 == ((x02 * x13) * x21) * x31) by (nonlinear_arith);
    assert(((x03 * x11) * x22) * x31 == ((x03 * x11) * x22) * x31) by (nonlinear_arith);
    assert(((x03 * x12) * x21) * x31 == ((x03 * x12) * x21) * x31) by (nonlinear_arith);
}

/// Cell (0, 2) of the transposed cofactors times the matrix.
proof fn lemma_cof4_cell_02(x00: int, x01: int, x02: int, x03: int, x10: int, x11: int, x12: int, x13: int, x20: int, x21: int, x22: int, x23: int, x30: int, x31: int, x32: int, x33: int)
    ensures
        int_det3_of(x11, x12, x13, x21, x22, x23, x31, x32, x33) * x02 + (-int_det3_of(x01, x02, x03, x21, x22, x23, x31, x32, x33)) * x12 + int_det3_of(x01, x02, x03, x11, x12, x13, x31, x32, x33) * x22 + (-int_det3_of(x01, x02, x03, x11, x12, x13, x21, x22, x23)) * x32 == 0,
{
    lemma_det3_of_monomials(x11, x12, x13, x21, x22, x23, x31, x32, x33);
    lemma_distrib6((x11 * x22) * x33, (x11 * x23) * x32, (x12 * x21) * x33, (x12 * x23) * x31, (x13 * x21) * x32, (x13 * x22) * x31, x02);
    assert(((x11 * x22) * x33) * x02 == ((x02 * x11) * x22) * x33) by (nonlinear_arith);
    assert(((x11 * x23) * x32) * x02 == ((x02 * x11) * x23) * x32) by (nonlinear_arith);
    assert(((x12 * x21) * x33) * x02 == ((x02 * x12) * x21) * x33) by (nonlinear_arith);
    assert(((x12 * x23) * x31) * x02 == ((x02 * x12) * x23) * x31) by (nonlinear_arith);
    assert(((x13 * x21) * x32) * x02 == ((x02 * x13) * x21) * x32) by (nonlinear_arith);
    assert(((x13 * x22) * x31) * x02 == ((x02 * x13) * x22) * x31) by (nonlinear_arith);
    lemma_det3_of_monomials(x01, x02, x03, x21, x22, x23, x31, x32, x33);
    lemma_distrib6((x01 * x22) * x33, (x01 * x23) * x32, (x02 * x21) * x33, (x02 * x23) * x31, (x03 * x21) * x32, (x03 * x22) * x31, x12);
    assert(((x01 * x22) * x33) * x12 == ((x01 * x12) * x22) * x33) by (nonlinear_arith);
    assert(((x01 * x23) * x32) * x12 == ((x01 * x12) * x23) * x32) by (nonlinear_arith);
    assert(((x02 * x21) * x33) * x12 == ((x02 * x12) * x21) * x33) by (nonlinear_arith);
    assert(((x02 * x23) * x31) * x12 == ((x02 * x12) * x23) * x31) by (nonlinear_arith);
    assert(((x03 * x21) * x32) * x12 == ((x03 * x12) * x21) * x32) by (nonlinear_arith);
    assert(((x03 * x22) * x31) * x12 == ((x03 * x12) * x22) * x31) by (nonlinear_arith);
    lemma_det3_of_monomials(x01, x02, x03, x11, x12, x13, x31, x32, x33);
    lemma_distrib6((x01 * x12) * x33, (x01 * x13) * x32, (x02 * x11) * x33, (x02 * x13) * x31, (x03 * x11) * x32, (x03 * x12) * x31, x22);
    assert(((x01 * x12) * x33) * x22 == ((x01 * x12) * x22) * x33) by (nonlinear_arith);
    assert(((x01 * x13) * x32) * x22 == ((x01 * x13) * x22) * x32) by (nonlinear_arith);
    assert(((x02 * x11) * x33) * x22 == ((x02 * x11) * x22) * x33) by (nonlinear_arith);
    assert(((x02 * x13) * x31) * x22 == ((x02 * x13) * x22) * x31) by (nonlinear_arith);
    assert(((x03 * x11) * x32) * x22 == ((x03 * x11) * x22) * x32) by (nonlinear_arith);
    assert(((x03 * x12) * x31) * x22 == ((x03 * x12) * x22) * x31) by (nonlinear_arith);
    lemma_det3_of_monomials(x01, x02, x03, x11, x12, x13, x21, x22, x23);
    lemma_distrib6((x01 * x12) * x23, (x01 * x13) * x22, (x02 * x11) * x23, (x02 * x13) * x21, (x03 * x11) * x22, (x03 * x12) * x21, x32);
    assert(((x01 * x12) * x23) * x32 == ((x01 * x12) * x23) * x32) by (nonlinear_arith);
    assert(((x01 * x13) * x22) * x32 == ((x01 * x13) * x22) * x32) by (nonlinear_arith);
    assert(((x02 * x11) * x23) * x32 == ((x02 * x11) * x23) * x32) by (nonlinear_arith);
    assert(((x02 * x13) * x21) * x32 == ((x02 * x13) * x21) * x32) by (nonlinear_arith);
    assert(((x03 * x11) * x22) * x32 == ((x03 * x11) * x22) * x32) by (nonlinear_arith);
    assert(((x03 * x12) * x21) * x32 == ((x03 * x12) * x21) * x32) by (nonlinear_arith);
}

/// Cell (0, 3) of the transposed cofactors times the matrix.
proof fn lemma_cof4_cell_03(x00: int, x01: int, x02: int, x03: int, x10: int, x11: int, x12: int, x13: int, x20: int, x21: int, x22: int, x23: int, x30: int, x31: int, x32: int, x33: int)
    ensures
        int_det3_of(x11, x12, x13, x21, x22, x23, x31, x32, x33) * x03 + (-int_det3_of(x01, x02, x03, x21, x22, x23, x31, x32, x33)) * x13 + int_det3_of(x01, x02, x03, x11, x12, x13, x31, x32, x33) * x23 + (-int_det3_of(x01, x02, x03, x11, x12, x13, x21, x22, x23)) * x33 == 0,
{
    lemma_det3_of_monomials(x11, x12, x13, x21, x22, x23, x31, x32, x33);
    lemma_distrib6((x11 * x22) * x33, (x11 * x23) * x32, (x12 * x21) * x33, (x12 * x23) * x31, (x13 * x21) * x32, (x13 * x22) * x31, x03);
    assert(((x11 * x22) * x33) * x03 == ((x03 * x11) * x22) * x33) by (nonlinear_arith);
    assert(((x11 * x23) * x32) * x03 == ((x03 * x11) * x23) * x32) by (nonlinear_arith);
    assert(((x12 * x21) * x33) * x03 == ((x03 * x12) * x21) * x33) by (nonlinear_arith);
    assert(((x12 * x23) * x31) * x03 == ((x03 * x12) * x23) * x31) by (nonlinear_arith);
    assert(((x13 * x21) * x32) * x03 == ((x03 * x13) * x21) * x32) by (nonlinear_arith);
    assert(((x13 * x22) * x31) * x03 == ((x03 * x13) * x22) * x31) by (nonlinear_arith);
    lemma_det3_of_monomials(x01, x02, x03, x21, x22, x23, x31, x32, x33);
    lemma_distrib6((x01 * x22) * x33, (x01 * x23) * x32, (x02 * x21) * x33, (x02 * x23) * x31, (x03 * x21) * x32, (x03 * x22) * x31, x13);
    assert(((x01 * x22) * x33) * x13 == ((x01 * x13) * x22) * x33) by (nonlinear_arith);
    assert(((x01 * x23) * x32) * x13 == ((x01 * x13) * x23) * x32) by (nonlinear_arith);
    assert(((x02 * x21) * x33) * x13 == ((x02 * x13) * x21) * x33) by (nonlinear_arith);
    assert(((x02 * x23) * x31) * x13 == ((x02 * x13) * x23) * x31) by (nonlinear_arith);
    assert(((x03 * x21) * x32) * x13 == ((x03 * x13) * x21) * x32) by (nonlinear_arith);
    assert(((x03 * x22) * x31) * x13 == ((x03 * x13) * x22) * x31) by (nonlinear_arith);
    lemma_det3_of_monomials(x01, x02, x03, x11, x12, x13, x31, x32, x33);
    lemma_distrib6((x01 * x12) * x33, (x01 * x13) * x32, (x02 * x11) * x33, (x02 * x13) * x31, (x03 * x11) * x32, (x03 * x12) * x31, x23);
    assert(((x01 * x12) * x33) * x23 == ((x01 * x12) * x23) * x33) by (nonlinear_arith);
    assert(((x01 * x13) * x32) * x23 == ((x01 * x13) * x23) * x32) by (nonlinear_arith);
    assert(((x02 * x11) * x33) * x23 == ((x02 * x11) * x23) * x33) by (nonlinear_arith);
    assert(((x02 * x13) * x31) * x23 == ((x02 * x13) * x23) * x31) by (nonlinear_arith);
    assert(((x03 * x11) * x32) * x23 == ((x03 * x11) * x23) * x32) by (nonlinear_arith);
    assert(((x03 * x12) * x31) * x23 == ((x03 * x12) * x23) * x31) by (nonlinear_arith);
    lemma_det3_of_monomials(x01, x02, x03, x11, x12, x13, x21, x22, x23);
    lemma_distrib6((x01 * x12) * x23, (x01 * x13) * x22, (x02 * x11) * x23, (x02 * x13) * x21, (x03 * x11) * x22, (x03 * x12) * x21, x33);
    assert(((x01 * x12) * x23) * x33 == ((x01 * x12) * x23) * x33) by (nonlinear_arith);
    assert(((x01 * x13) * x22) * x33 == ((x01 * x13) * x22) * x33) by (nonlinear_arith);
    assert(((x02 * x11) * x23) * x33 == ((x02 * x11) * x23) * x33) by (nonlinear_arith);
    assert(((x02 * x13) * x21) * x33 == ((x02 * x13) * x21) * x33) by (nonlinear_arith);
    assert(((x03 * x11) * x22) * x33 == ((x03 * x11) * x22) * x33) by (nonlinear_arith);
    assert(((x03 * x12) * x21) * x33 == ((x03 * x12) * x21) * x33) by (nonlinear_arith);
}

/// Cell (1, 0) of the transposed cofactors times the matrix.
proof fn lemma_cof4_cell_10(x00: int, x01: int, x02: int, x03: int, x10: int, x11: int, x12: int, x13: int, x20: int, x21: int, x22: int, x23: int, x30: int, x31: int, x32: int, x33: int)
    ensures
        (-int_det3_of(x10, x12, x13, x20, x22, x23, x30, x32, x33)) * x00 + int_det3_of(x00, x02, x03, x20, x22, x23, x30, x32, x33) * x10 + (-int_det3_of(x00, x02, x03, x10, x12, x13, x30, x32, x33)) * x20 + int_det3_of(x00, x02, x03, x10, x12, x13, x20, x22, x23) * x30 == 0,
{
    lemma_det3_of_monomials(x10, x12, x13, x20, x22, x23, x30, x32, x33);
    lemma_distrib6((x10 * x22) * x33, (x10 * x23) * x32, (x12 * x20) * x33, (x12 * x23) * x30, (x13 * x20) * x32, (x13 * x22) * x30, x00);
    assert(((x10 * x22) * x33) * x00 == ((x00 * x10) * x22) * x33) by (nonlinear_arith);
    assert(((x10 * x23) * x32) * x00 == ((x00 * x10) * x23) * x32) by (nonlinear_arith);
    assert(((x12 * x20) * x33) * x00 == ((x00 * x12) * x20) * x33) by (nonlinear_arith);
    assert(((x12 * x23) * x30) * x00 == ((x00 * x12) * x23) * x30) by (nonlinear_arith);
    assert(((x13 * x20) * x32) * x00 == ((x00 * x13) * x20) * x32) by (nonlinear_arith);
    assert(((x13 * x22) * x30) * x00 == ((x00 * x13) * x22) * x30) by (nonlinear_arith);
    lemma_det3_of_monomials(x00, x02, x03, x20, x22, x23, x30, x32, x33);
    lemma_distrib6((x00 * x22) * x33, (x00 * x23) * x32, (x02 * x20) * x33, (x02 * x23) * x30, (x03 * x20) * x32, (x03 * x22) * x30, x10);
    assert(((x00 * x22) * x33) * x10 == ((x00 * x10) * x22) * x33) by (nonlinear_arith);
    assert(((x00 * x23) * x32) * x10 == ((x00 * x10) * x23) * x32) by (nonlinear_arith);
    assert(((x02 * x20) * x33) * x10 == ((x02 * x10) * x20) * x33) by (nonlinear_arith);
    assert(((x02 * x23) * x30) * x10 == ((x02 * x10) * x23) * x30) by (nonlinear_arith);
    assert(((x03 * x20) * x32) * x10 == ((x03 * x10) * x20) * x32) by (nonlinear_arith);
    assert(((x03 * x22) * x30) * x10 == ((x03 * x10) * x22) * x30) by (nonlinear_arith);
    lemma_det3_of_monomials(x00, x02, x03, x10, x12, x13, x30, x32, x33);
    lemma_distrib6((x00 * x12) * x33, (x00 * x13) * x32, (x02 * x10) * x33, (x02 * x13) * x30, (x03 * x10) * x32, (x03 * x12) * x30, x20);
    assert(((x00 * x12) * x33) * x20 == ((x00 * x12) * x20) * x33) by (nonlinear_arith);
    assert(((x00 * x13) * x32) * x20 == ((x00 * x13) * x20) * x32) by (nonlinear_arith);
    assert(((x02 * x10) * x33) * x20 == ((x02 * x10) * x20) * x33) by (nonlinear_arith);
    assert(((x02 * x13) * x30) * x20 == ((x02 * x13) * x20) * x30) by (nonlinear_arith);
    assert(((x03 * x10) * x32) * x20 == ((x03 * x10) * x20) * x32) by (nonlinear_arith);
    assert(((x03 * x12) * x30) * x20 == ((x03 * x12) * x20) * x30) by (nonlinear_arith);
    lemma_det3_of_monomials(x00, x02, x03, x10, x12, x13, x20, x22, x23);
    lemma_distrib6((x00 * x12) * x23, (x00 * x13) * x22, (x02 * x10) * x23, (x02 * x13) * x20, (x03 * x10) * x22, (x03 * x12) * x20, x30);
    assert(((x00 * x12) * x23) * x30 == ((x00 * x12) * x23) * x30) by (nonlinear_arith);
    assert(((x00 * x13) * x22) * x30 == ((x00 * x13) * x22) * x30) by (nonlinear_arith);
    assert(((x02 * x10) * x23) * x30 == ((x02 * x10) * x23) * x30) by (nonlinear_arith);
    assert(((x02 * x13) * x20) * x30 == ((x02 * x13) * x20) * x30) by (nonlinear_arith);
    assert(((x03 * x10) * x22) * x30 == ((x03 * x10) * x22) * x30) by (nonlinear_arith);
    assert(((x03 * x12) * x20) * x30 == ((x03 * x12) * x20) * x30) by (nonlinear_arith);
}

/// Cell (1, 1) of the transposed cofactors times the matrix.
proof fn lemma_cof4_cell_11(x00: int, x01: int, x02: int, x03: int, x10: int, x11: int, x12: int, x13: int, x20: int, x21: int, x22: int, x23: int, x30: int, x31: int, x32: int, x33: int)
    ensures
        (-int_det3_of(x10, x12, x13, x20, x22, x23, x30, x32, x33)) * x01 + int_det3_of(x00, x02, x03, x20, x22, x23, x30, x32, x33) * x11 + (-int_det3_of(x00, x02, x03, x10, x12, x13, x30, x32, x33)) * x21 + int_det3_of(x00, x02, x03, x10, x12, x13, x20, x22, x23) * x31 == ((x00 * x11) * x22) * x33 - ((x00 * x11) * x23) * x32 - ((x00 * x12) * x21) * x33 + ((x00 * x12) * x23) * x31 + ((x00 * x13) * x21) * x32 - ((x00 * x13) * x22) * x31 - ((x01 * x10) * x22) * x33 + ((x01 * x10) * x23) * x32 + ((x01 * x12) * x20) * x33 - ((x01 * x12) * x23) * x30 - ((x01 * x13) * x20) * x32 + ((x01 * x13) * x22) * x30 + ((x02 * x10) * x21) * x33 - ((x02 * x10) * x23) * x31 - ((x02 * x11) * x20) * x33 + ((x02 * x11) * x23) * x30 + ((x02 * x13) * x20) * x31 - ((x02 * x13) * x21) * x30 - ((x03 * x10) * x21) * x32 + ((x03 * x10) * x22) * x31 + ((x03 * x11) * x20) * x32 - ((x03 * x11) * x22) * x30 - ((x03 * x12) * x20) * x31 + ((x03 * x12) * x21) * x30,
{
    lemma_det3_of_monomials(x10, x12, x13, x20, x22, x23, x30, x32, x33);
    lemma_distrib6((x10 * x22) * x33, (x10 * x23) * x32, (x12 * x20) * x33, (x12 * x23) * x30, (x13 * x20) * x32, (x13 * x22) * x30, x01);
    assert(((x10 * x22) * x33) * x01 == ((x01 * x10) * x22) * x33) by (nonlinear_arith);
    assert(((x10 * x23) * x32) * x01 == ((x01 * x10) * x23) * x32) by (nonlinear_arith);
    assert(((x12 * x20) * x33) * x01 == ((x01 * x12) * x20) * x33) by (nonlinear_arith);
    assert(((x12 * x23) * x30) * x01 == ((x01 * x12) * x23) * x30) by (nonlinear_arith);
    assert(((x13 * x20) * x32) * x01 == ((x01 * x13) * x20) * x32) by (nonlinear_arith);
    assert(((x13 * x22) * x30) * x01 == ((x01 * x13) * x22) * x30) by (nonlinear_arith);
    lemma_det3_of_monomials(x00, x02, x03, x20, x22, x23, x30, x32, x33);
    lemma_distrib6((x00 * x22) * x33, (x00 * x23) * x32, (x02 * x20) * x33, (x02 * x23) * x30, (x03 * x20) * x32, (x03 * x22) * x30, x11);
    assert(((x00 * x22) * x33) * x11 == ((x00 * x11) * x22) * x33) by (nonlinear_arith);
    assert(((x00 * x23) * x32) * x11 == ((x00 * x11) * x23) * x32) by (nonlinear_arith);
    assert(((x02 * x20) * x33) * x11 == ((x02 * x11) * x20) * x33) by (nonlinear_arith);
    assert(((x02 * x23) * x30) * x11 == ((x02 * x11) * x23) * x30) by (nonlinear_arith);
    assert(((x03 * x20) * x32) * x11 == ((x03 * x11) * x20) * x32) by (nonlinear_arith);
    assert(((x03 * x22) * x30) * x11 == ((x03 * x11) * x22) * x30) by (nonlinear_arith);
    lemma_det3_of_monomials(x00, x02, x03, x10, x12, x13, x30, x32, x33);
    lemma_distrib6((x00 * x12) * x33, (x00 * x13) * x32, (x02 * x10) * x33, (x02 * x13) * x30, (x03 * x10) * x32, (x03 * x12) * x30, x21);
    assert(((x00 * x12) * x33) * x21 == ((x00 * x12) * x21) * x33) by (nonlinear_arith);
    assert(((x00 * x13) * x32) * x21 == ((x00 * x13) * x21) * x32) by (nonlinear_arith);
    assert(((x02 * x10) * x33) * x21 == ((x02 * x10) * x21) * x33) by (nonlinear_arith);
    assert(((x02 * x13) * x30) * x21 == ((x02 * x13) * x21) * x30) by (nonlinear_arith);
    assert(((x03 * x10) * x32) * x21 == ((x03 * x10) * x21) * x32) by (nonlinear_arith);
    assert(((x03 * x12) * x30) * x21 == ((x03 * x12) * x21) * x30) by (nonlinear_arith);
    lemma_det3_of_monomials(x00, x02, x03, x10, x12, x13, x20, x22, x23);
    lemma_distrib6((x00 * x12) * x23, (x00 * x13) * x22, (x02 * x10) * x23, (x02 * x13) * x20, (x03 * x10) * x22, (x03 * x12) * x20, x31);
    assert(((x00 * x12) * x23) * x31 == ((x00 * x12) * x23) * x31) by (nonlinear_arith);
    assert(((x00 * x13) * x22) * x31 == ((x00 * x13) * x22) * x31) by (nonlinear_arith);
    assert(((x02 * x10) * x23) * x31 == ((x02 * x10) * x23) * x31) by (nonlinear_arith);
    assert(((x02 * x13) * x20) * x31 == ((x02 * x13) * x20) * x31) by (nonlinear_arith);
    assert(((x03 * x10) * x22) * x31 == ((x03 * x10) * x22) * x31) by (nonlinear_arith);
    assert(((x03 * x12) * x20) * x31 == ((x03 * x12) * x20) * x31) by (nonlinear_arith);
}

/// Cell (1, 2) of the transposed cofactors times the matrix.
proof fn lemma_cof4_cell_12(x00: int, x01: int, x02: int, x03: int, x10: int, x11: int, x12: int, x13: int, x20: int, x21: int, x22: int, x23: int, x30: int, x31: int, x32: int, x33: int)
    ensures
        (-int_det3_of(x10, x12, x13, x20, x22, x23, x30, x32, x33)) * x02 + int_det3_of(x00, x02, x03, x20, x22, x23, x30, x32, x33) * x12 + (-int_det3_of(x00, x02, x03, x10, x12, x13, x30, x32, x33)) * x22 + int_det3_of(x00, x02, x03, x10, x12, x13, x20, x22, x23) * x32 == 0,
{
    lemma_det3_of_monomials(x10, x12, x13, x20, x22, x23, x30, x32, x33);
    lemma_distrib6((x10 * x22) * x33, (x10 * x23) * x32, (x12 * x20) * x33, (x12 * x23) * x30, (x13 * x20) * x32, (x13 * x22) * x30, x02);
    assert(((x10 * x22) * x33) * x02 == ((x02 * x10) * x22) * x33) by (nonlinear_arith);
    assert(((x10 * x23) * x32) * x02 == ((x02 * x10) * x23) * x32) by (nonlinear_arith);
    assert(((x12 * x20) * x33) * x02 == ((x02 * x12) * x20) * x33) by (nonlinear_arith);
    assert(((x12 * x23) * x30) * x02 == ((x02 * x12) * x23) * x30) by (nonlinear_arith);
    assert(((x13 * x20) * x32) * x02 == ((x02 * x13) * x20) * x32) by (nonlinear_arith);
    assert(((x13 * x22) * x30) * x02 == ((x02 * x13) * x22) * x30) by (nonlinear_arith);
    lemma_det3_of_monomials(x00, x02, x03, x20, x22, x23, x30, x32, x33);
    lemma_distrib6((x00 * x22) * x33, (x00 * x23) * x32, (x02 * x20) * x33, (x02 * x23) * x30, (x03 * x20) * x32, (x03 * x22) * x30, x12);
    assert(((x00 * x22) * x33) * x12 == ((x00 * x12) * x22) * x33) by (nonlinear_arith);
    assert(((x00 * x23) * x32) * x12 == ((x00 * x12) * x23) * x32) by (nonlinear_arith);
    assert(((x02 * x20) * x33) * x12 == ((x02 * x12) * x20) * x33) by (nonlinear_arith);
    assert(((x02 * x23) * x30) * x12 == ((x02 * x12) * x23) * x30) by (nonlinear_arith);
    assert(((x03 * x20) * x32) * x12 == ((x03 * x12) * x20) * x32) by (nonlinear_arith);
    assert(((x03 * x22) * x30) * x12 == ((x03 * x12) * x22) * x30) by (nonlinear_arith);
    lemma_det3_of_monomials(x00, x02, x03, x10, x12, x13, x30, x32, x33);
    lemma_distrib6((x00 * x12) * x33, (x00 * x13) * x32, (x02 * x10) * x33, (x02 * x13) * x30, (x03 * x10) * x32, (x03 * x12) * x30, x22);
    assert(((x00 * x12) * x33) * x22 == ((x00 * x12) * x22) * x33) by (nonlinear_arith);
    assert(((x00 * x13) * x32) * x22 == ((x00 * x13) * x22) * x32) by (nonlinear_arith);
    assert(((x02 * x10) * x33) * x22 == ((x02 * x10) * x22) * x33) by (nonlinear_arith);
    assert(((x02 * x13) * x30) * x22 == ((x02 * x13) * x22) * x30) by (nonlinear_arith);
    assert(((x03 * x10) * x32) * x22 == ((x03 * x10) * x22) * x32) by (nonlinear_arith);
    assert(((x03 * x12) * x30) * x22 == ((x03 * x12) * x22) * x30) by (nonlinear_arith);
    lemma_det3_of_monomials(x00, x02, x03, x10, x12, x13, x20, x22, x23);
    lemma_distrib6((x00 * x12) * x23, (x00 * x13) * x22, (x02 * x10) * x23, (x02 * x13) * x20, (x03 * x10) * x22, (x03 * x12) * x20, x32);
    assert(((x00 * x12) * x23) * x32 == ((x00 * x12) * x23) * x32) by (nonlinear_arith);
    assert(((x00 * x13) * x22) * x32 == ((x00 * x13) * x22) * x32) by (nonlinear_arith);
    assert(((x02 * x10) * x23) * x32 == ((x02 * x10) * x23) * x32) by (nonlinear_arith);
    assert(((x02 * x13) * x20) * x32 == ((x02 * x13) * x20) * x32) by (nonlinear_arith);
    assert(((x03 * x10) * x22) * x32 == ((x03 * x10) * x22) * x32) by (nonlinear_arith);
    assert(((x03 * x12) * x20) * x32 == ((x03 * x12) * x20) * x32) by (nonlinear_arith);
}

/// Cell (1, 3) of the transposed cofactors times the matrix.
proof fn lemma_cof4_cell_13(x00: int, x01: int, x02: int, x03: int, x10: int, x11: int, x12: int, x13: int, x20: int, x21: int, x22: int, x23: int, x30: int, x31: int, x32: int, x33: int)
    ensures
        (-int_det3_of(x10, x12, x13, x20, x22, x23, x30, x32, x33)) * x03 + int_det3_of(x00, x02, x03, x20, x22, x23, x30, x32, x33) * x13 + (-int_det3_of(x00, x02, x03, x10, x12, x13, x30, x32, x33)) * x23 + int_det3_of(x00, x02, x03, x10, x12, x13, x20, x22, x23) * x33 == 0,
{
    lemma_det3_of_monomials(x10, x12, x13, x20, x22, x23, x30, x32, x33);
    lemma_distrib6((x10 * x22) * x33, (x10 * x23) * x32, (x12 * x20) * x33, (x12 * x23) * x30, (x13 * x20) * x32, (x13 * x22) * x30, x03);
    assert(((x10 * x22) * x33) * x03 == ((x03 * x10) * x22) * x33) by (nonlinear_arith);
    assert(((x10 * x23) * x32) * x03 == ((x03 * x10) * x23) * x32) by (nonlinear_arith);
    assert(((x12 * x20) * x33) * x03 == ((x03 * x12) * x20) * x33) by (nonlinear_arith);
    assert(((x12 * x23) * x30) * x03 == ((x03 * x12) * x23) * x30) by (nonlinear_arith);
    assert(((x13 * x20) * x32) * x03 == ((x03 * x13) * x20) * x32) by (nonlinear_arith);
    assert(((x13 * x22) * x30) * x03 == ((x03 * x13) * x22) * x30) by (nonlinear_arith);
    lemma_det3_of_monomials(x00, x02, x03, x20, x22, x23, x30, x32, x33);
    lemma_distrib6((x00 * x22) * x33, (x00 * x23) * x32, (x02 * x20) * x33, (x02 * x23) * x30, (x03 * x20) * x32, (x03 * x22) * x30, x13);
    assert(((x00 * x22) * x33) * x13 == ((x00 * x13) * x22) * x33) by (nonlinear_arith);
    assert(((x00 * x23) * x32) * x13 == ((x00 * x13) * x23) * x32) by (nonlinear_arith);
    assert(((x02 * x20) * x33) * x13 == ((x02 * x13) * x20) * x33) by (nonlinear_arith);
    assert(((x02 * x23) * x30) * x13 == ((x02 * x13) * x23) * x30) by (nonlinear_arith);
    assert(((x03 * x20) * x32) * x13 == ((x03 * x13) * x20) * x32) by (nonlinear_arith);
    assert(((x03 * x22) * x30) * x13 == ((x03 * x13) * x22) * x30) by (nonlinear_arith);
    lemma_det3_of_monomials(x00, x02, x03, x10, x12, x13, x30, x32, x33);
    lemma_distrib6((x00 * x12) * x33, (x00 * x13) * x32, (x02 * x10) * x33, (x02 * x13) * x30, (x03 * x10) * x32, (x03 * x12) * x30, x23);
    assert(((x00 * x12) * x33) * x23 == ((x00 * x12) * x23) * x33) by (nonlinear_arith);
    assert(((x00 * x13) * x32) * x23 == ((x00 * x13) * x23) * x32) by (nonlinear_arith);
    assert(((x02 * x10) * x33) * x23 == ((x02 * x10) * x23) * x33) by (nonlinear_arith);
    assert(((x02 * x13) * x30) * x23 == ((x02 * x13) * x23) * x30) by (nonlinear_arith);
    assert(((x03 * x10) * x32) * x23 == ((x03 * x10) * x23) * x32) by (nonlinear_arith);
    assert(((x03 * x12) * x30) * x23 == ((x03 * x12) * x23) * x30) by (nonlinear_arith);
    lemma_det3_of_monomials(x00, x02, x03, x10, x12, x13, x20, x22, x23);
    lemma_distrib6((x00 * x12) * x23, (x00 * x13) * x22, (x02 * x10) * x23, (x02 * x13) * x20, (x03 * x10) * x22, (x03 * x12) * x20, x33);
    assert(((x00 * x12) * x23) * x33 == ((x00 * x12) * x23) * x33) by (nonlinear_arith);
    assert(((x00 * x13) * x22) * x33 == ((x00 * x13) * x22) * x33) by (nonlinear_arith);
    assert(((x02 * x10) * x23) * x33 == ((x02 * x10) * x23) * x33) by (nonlinear_arith);
    assert(((x02 * x13) * x20) * x33 == ((x02 * x13) * x20) * x33) by (nonlinear_arith);
    assert(((x03 * x10) * x22) * x33 == ((x03 * x10) * x22) * x33) by (nonlinear_arith);
    assert(((x03 * x12) * x20) * x33 == ((x03 * x12) * x20) * x33) by (nonlinear_arith);
}

/// Cell (2, 0) of the transposed cofactors times the matrix.
proof fn lemma_cof4_cell_20(x00: int, x01: int, x02: int, x03: int, x10: int, x11: int, x12: int, x13: int, x20: int, x21: int, x22: int, x23: int, x30: int, x31: int, x32: int, x33: int)
    ensures
        int_det3_of(x10, x11, x13, x20, x21, x23, x30, x31, x33) * x00 + (-int_det3_of(x00, x01, x03, x20, x21, x23, x30, x31, x33)) * x10 + int_det3_of(x00, x01, x03, x10, x11, x13, x30, x31, x33) * x20 + (-int_det3_of(x00, x01, x03, x10, x11, x13, x20, x21, x23)) * x30 == 0,
{
    lemma_det3_of_monomials(x10, x11, x13, x20, x21, x23, x30, x31, x33);
    lemma_distrib6((x10 * x21) * x33, (x10 * x23) * x31, (x11 * x20) * x33, (x11 * x23) * x30, (x13 * x20) * x31, (x13 * x21) * x30, x00);
    assert(((x10 * x21) * x33) * x00 == ((x00 * x10) * x21) * x33) by (nonlinear_arith);
    assert(((x10 * x23) * x31) * x00 == ((x00 * x10) * x23) * x31) by (nonlinear_arith);
    assert(((x11 * x20) * x33) * x00 == ((x00 * x11) * x20) * x33) by (nonlinear_arith);
    assert(((x11 * x23) * x30) * x00 == ((x00 * x11) * x23) * x30) by (nonlinear_arith);
    assert(((x13 * x20) * x31) * x00 == ((x00 * x13) * x20) * x31) by (nonlinear_arith);
    assert(((x13 * x21) * x30) * x00 == ((x00 * x13) * x21) * x30) by (nonlinear_arith);
    lemma_det3_of_monomials(x00, x01, x03, x20, x21, x23, x30, x31, x33);
    lemma_distrib6((x00 * x21) * x33, (x00 * x23) * x31, (x01 * x20) * x33, (x01 * x23) * x30, (x03 * x20) * x31, (x03 * x21) * x30, x10);
    assert(((x00 * x21) * x33) * x10 == ((x00 * x10) * x21) * x33) by (nonlinear_arith);
    assert(((x00 * x23) * x31) * x10 == ((x00 * x10) * x23) * x31) by (nonlinear_arith);
    assert(((x01 * x20) * x33) * x10 == ((x01 * x10) * x20) * x33) by (nonlinear_arith);
    assert(((x01 * x23) * x30) * x10 == ((x01 * x10) * x23) * x30) by (nonlinear_arith);
    assert(((x03 * x20) * x31) * x10 == ((x03 * x10) * x20) * x31) by (nonlinear_arith);
    assert(((x03 * x21) * x30) * x10 == ((x03 * x10) * x21) * x30) by (nonlinear_arith);
    lemma_det3_of_monomials(x00, x01, x03, x10, x11, x13, x30, x31, x33);
    lemma_distrib6((x00 * x11) * x33, (x00 * x13) * x31, (x01 * x10) * x33, (x01 * x13) * x30, (x03 * x10) * x31, (x03 * x11) * x30, x20);
    assert(((x00 * x11) * x33) * x20 == ((x00 * x11) * x20) * x33) by (nonlinear_arith);
    assert(((x00 * x13) * x31) * x20 == ((x00 * x13) * x20) * x31) by (nonlinear_arith);
    assert(((x01 * x10) * x33) * x20 == ((x01 * x10) * x20) * x33) by (nonlinear_arith);
    assert(((x01 * x13) * x30) * x20 == ((x01 * x13) * x20) * x30) by (nonlinear_arith);
    assert(((x03 * x10) * x31) * x20 == ((x03 * x10) * x20) * x31) by (nonlinear_arith);
    assert(((x03 * x11) * x30) * x20 == ((x03 * x11) * x20) * x30) by (nonlinear_arith);
    lemma_det3_of_monomials(x00, x01, x03, x10, x11, x13, x20, x21, x23);
    lemma_distrib6((x00 * x11) * x23, (x00 * x13) * x21, (x01 * x10) * x23, (x01 * x13) * x20, (x03 * x10) * x21, (x03 * x11) * x20, x30);
    assert(((x00 * x11) * x23) * x30 == ((x00 * x11) * x23) * x30) by (nonlinear_arith);
    assert(((x00 * x13) * x21) * x30 == ((x00 * x13) * x21) * x30) by (nonlinear_arith);
    assert(((x01 * x10) * x23) * x30 == ((x01 * x10) * x23) * x30) by (nonlinear_arith);
    assert(((x01 * x13) * x20) * x30 == ((x01 * x13) * x20) * x30) by (nonlinear_arith);
    assert(((x03 * x10) * x21) * x30 == ((x03 * x10) * x21) * x30) by (nonlinear_arith);
    assert(((x03 * x11) * x20) * x30 == ((x03 * x11) * x20) * x30) by (nonlinear_arith);
}

/// Cell (2, 1) of the transposed cofactors times the matrix.
proof fn lemma_cof4_cell_21(x00: int, x01: int, x02: int, x03: int, x10: int, x11: int, x12: int, x13: int, x20: int, x21: int, x22: int, x23: int, x30: int, x31: int, x32: int, x33: int)
    ensures
        int_det3_of(x10, x11, x13, x20, x21, x23, x30, x31, x33) * x01 + (-int_det3_of(x00, x01, x03, x20, x21, x23, x30, x31, x33)) * x11 + int_det3_of(x00, x01, x03, x10, x11, x13, x30, x31, x33) * x21 + (-int_det3_of(x00, x01, x03, x10, x11, x13, x20, x21, x23)) * x31 == 0,
{
    lemma_det3_of_monomials(x10, x11, x13, x20, x21, x23, x30, x31, x33);
    lemma_distrib6((x10 * x21) * x33, (x10 * x23) * x31, (x11 * x20) * x33, (x11 * x23) * x30, (x13 * x20) * x31, (x13 * x21) * x30, x01);
    assert(((x10 * x21) * x33) * x01 == ((x01 * x10) * x21) * x33) by (nonlinear_arith);
    assert(((x10 * x23) * x31) * x01 == ((x01 * x10) * x23) * x31) by (nonlinear_arith);
    assert(((x11 * x20) * x33) * x01 == ((x01 * x11) * x20) * x33) by (nonlinear_arith);
    assert(((x11 * x23) * x30) * x01 == ((x01 * x11) * x23) * x30) by (nonlinear_arith);
    assert(((x13 * x20) * x31) * x01 == ((x01 * x13) * x20) * x31) by (nonlinear_arith);
    assert(((x13 * x21) * x30) * x01 == ((x01 * x13) * x21) * x30) by (nonlinear_arith);
    lemma_det3_of_monomials(x00, x01, x03, x20, x21, x23, x30, x31, x33);
    lemma_distrib6((x00 * x21) * x33, (x00 * x23) * x31, (x01 * x20) * x33, (x01 * x23) * x30, (x03 * x20) * x31, (x03 * x21) * x30, x11);
    assert(((x00 * x21) * x33) * x11 == ((x00 * x11) * x21) * x33) by (nonlinear_arith);
    assert(((x00 * x23) * x31) * x11 == ((x00 * x11) * x23) * x31) by (nonlinear_arith);
    assert(((x01 * x20) * x33) * x11 == ((x01 * x11) * x20) * x33) by (nonlinear_arith);
    assert(((x01 * x23) * x30) * x11 == ((x01 * x11) * x23) * x30) by (nonlinear_arith);
    assert(((x03 * x20) * x31) * x11 == ((x03 * x11) * x20) * x31) by (nonlinear_arith);
    assert(((x03 * x21) * x30) * x11 == ((x03 * x11) * x21) * x30) by (nonlinear_arith);
    lemma_det3_of_monomials(x00, x01, x03, x10, x11, x13, x30, x31, x33);
    lemma_distrib6((x00 * x11) * x33, (x00 * x13) * x31, (x01 * x10) * x33, (x01 * x13) * x30, (x03 * x10) * x31, (x03 * x11) * x30, x21);
    assert(((x00 * x11) * x33) * x21 == ((x00 * x11) * x21) * x33) by (nonlinear_arith);
    assert(((x00 * x13) * x31) * x21 == ((x00 * x13) * x21) * x31) by (nonlinear_arith);
    assert(((x01 * x10) * x33) * x21 == ((x01 * x10) * x21) * x33) by (nonlinear_arith);
    assert(((x01 * x13) * x30) * x21 == ((x01 * x13) * x21) * x30) by (nonlinear_arith);
    assert(((x03 * x10) * x31) * x21 == ((x03 * x10) * x21) * x31) by (nonlinear_arith);
    assert(((x03 * x11) * x30) * x21 == ((x03 * x11) * x21) * x30) by (nonlinear_arith);
    lemma_det3_of_monomials(x00, x01, x03, x10, x11, x13, x20, x21, x23);
    lemma_distrib6((x00 * x11) * x23, (x00 * x13) * x21, (x01 * x10) * x23, (x01 * x13) * x20, (x03 * x10) * x21, (x03 * x11) * x20, x31);
    assert(((x00 * x11) * x23) * x31 == ((x00 * x11) * x23) * x31) by (nonlinear_arith);
    assert(((x00 * x13) * x21) * x31 == ((x00 * x13) * x21) * x31) by (nonlinear_arith);
    assert(((x01 * x10) * x23) * x31 == ((x01 * x10) * x23) * x31) by (nonlinear_arith);
    assert(((x01 * x13) * x20) * x31 == ((x01 * x13) * x20) * x31) by (nonlinear_arith);
    assert(((x03 * x10) * x21) * x31 == ((x03 * x10) * x21) * x31) by (nonlinear_arith);
    assert(((x03 * x11) * x20) * x31 == ((x03 * x11) * x20) * x31) by (nonlinear_arith);
}

/// Cell (2, 2) of the transposed cofactors times the matrix.
proof fn lemma_cof4_cell_22(x00: int, x01: int, x02: int, x03: int, x10: int, x11: int, x12: int, x13: int, x20: int, x21: int, x22: int, x23: int, x30: int, x31: int, x32: int, x33: int)
    ensures
        int_det3_of(x10, x11, x13, x20, x21, x23, x30, x31, x33) * x02 + (-int_det3_of(x00, x01, x03, x20, x21, x23, x30, x31, x33)) * x12 + int_det3_of(x00, x01, x03, x10, x11, x13, x30, x31, x33) * x22 + (-int_det3_of(x00, x01, x03, x10, x11, x13, x20, x21, x23)) * x32 == ((x00 * x11) * x22) * x33 - ((x00 * x11) * x23) * x32 - ((x00 * x12) * x21) * x33 + ((x00 * x12) * x23) * x31 + ((x00 * x13) * x21) * x32 - ((x00 * x13) * x22) * x31 - ((x01 * x10) * x22) * x33 + ((x01 * x10) * x23) * x32 + ((x01 * x12) * x20) * x33 - ((x01 * x12) * x23) * x30 - ((x01 * x13) * x20) * x32 + ((x01 * x13) * x22) * x30 + ((x02 * x10) * x21) * x33 - ((x02 * x10) * x23) * x31 - ((x02 * x11) * x20) * x33 + ((x02 * x11) * x23) * x30 + ((x02 * x13) * x20) * x31 - ((x02 * x13) * x21) * x30 - ((x03 * x10) * x21) * x32 + ((x03 * x10) * x22) * x31 + ((x03 * x11) * x20) * x32 - ((x03 * x11) * x22) * x30 - ((x03 * x12) * x20) * x31 + ((x03 * x12) * x21) * x30,
{
    lemma_det3_of_monomials(x10, x11, x13, x20, x21, x23, x30, x31, x33);
    lemma_distrib6((x10 * x21) * x33, (x10 * x23) * x31, (x11 * x20) * x33, (x11 * x23) * x30, (x13 * x20) * x31, (x13 * x21) * x30, x02);
    assert(((x10 * x21) * x33) * x02 == ((x02 * x10) * x21) * x33) by (nonlinear_arith);
    assert(((x10 * x23) * x31) * x02 == ((x02 * x10) * x23) * x31) by (nonlinear_arith);
    assert(((x11 * x20) * x33) * x02 == ((x02 * x11) * x20) * x33) by (nonlinear_arith);
    assert(((x11 * x23) * x30) * x02 == ((x02 * x11) * x23) * x30) by (nonlinear_arith);
    assert(((x13 * x20) * x31) * x02 == ((x02 * x13) * x20) * x31) by (nonlinear_arith);
    assert(((x13 * x21) * x30) * x02 == ((x02 * x13) * x21) * x30) by (nonlinear_arith);
    lemma_det3_of_monomials(x00, x01, x03, x20, x21, x23, x30, x31, x33);
    lemma_distrib6((x00 * x21) * x33, (x00 * x23) * x31, (x01 * x20) * x33, (x01 * x23) * x30, (x03 * x20) * x31, (x03 * x21) * x30, x12);
    assert(((x00 * x21) * x33) * x12 == ((x00 * x12) * x21) * x33) by (nonlinear_arith);
    assert(((x00 * x23) * x31) * x12 == ((x00 * x12) * x23) * x31) by (nonlinear_arith);
    assert(((x01 * x20) * x33) * x12 == ((x01 * x12) * x20) * x33) by (nonlinear_arith);
    assert(((x01 * x23) * x30) * x12 == ((x01 * x12) * x23) * x30) by (nonlinear_arith);
    assert(((x03 * x20) * x31) * x12 == ((x03 * x12) * x20) * x31) by (nonlinear_arith);
    assert(((x03 * x21) * x30) * x12 == ((x03 * x12) * x21) * x30) by (nonlinear_arith);
    lemma_det3_of_monomials(x00, x01, x03, x10, x11, x13, x30, x31, x33);
    lemma_distrib6((x00 * x11) * x33, (x00 * x13) * x31, (x01 * x10) * x33, (x01 * x13) * x30, (x03 * x10) * x31, (x03 * x11) * x30, x22);
    assert(((x00 * x11) * x33) * x22 == ((x00 * x11) * x22) * x33) by (nonlinear_arith);
    assert(((x00 * x13) * x31) * x22 == ((x00 * x13) * x22) * x31) by (nonlinear_arith);
    assert(((x01 * x10) * x33) * x22 == ((x01 * x10) * x22) * x33) by (nonlinear_arith);
    assert(((x01 * x13) * x30) * x22 == ((x01 * x13) * x22) * x30) by (nonlinear_arith);
    assert(((x03 * x10) * x31) * x22 == ((x03 * x10) * x22) * x31) by (nonlinear_arith);
    assert(((x03 * x11) * x30) * x22 == ((x03 * x11) * x22) * x30) by (nonlinear_arith);
    lemma_det3_of_monomials(x00, x01, x03, x10, x11, x13, x20, x21, x23);
    lemma_distrib6((x00 * x11) * x23, (x00 * x13) * x21, (x01 * x10) * x23, (x01 * x13) * x20, (x03 * x10) * x21, (x03 * x11) * x20, x32);
    assert(((x00 * x11) * x23) * x32 == ((x00 * x11) * x23) * x32) by (nonlinear_arith);
    assert(((x00 * x13) * x21) * x32 == ((x00 * x13) * x21) * x32) by (nonlinear_arith);
    assert(((x01 * x10) * x23) * x32 == ((x01 * x10) * x23) * x32) by (nonlinear_arith);
    assert(((x01 * x13) * x20) * x32 == ((x01 * x13) * x20) * x32) by (nonlinear_arith);
    assert(((x03 * x10) * x21) * x32 == ((x03 * x10) * x21) * x32) by (nonlinear_arith);
    assert(((x03 * x11) * x20) * x32 == ((x03 * x11) * x20) * x32) by (nonlinear_arith);
}

/// Cell (2, 3) of the transposed cofactors times the matrix.
proof fn lemma_cof4_cell_23(x00: int, x01: int, x02: int, x03: int, x10: int, x11: int, x12: int, x13: int, x20: int, x21: int, x22: int, x23: int, x30: int, x31: int, x32: int, x33: int)
    ensures
        int_det3_of(x10, x11, x13, x20, x21, x23, x30, x31, x33) * x03 + (-int_det3_of(x00, x01, x03, x20, x21, x23, x30, x31, x33)) * x13 + int_det3_of(x00, x01, x03, x10, x11, x13, x30, x31, x33) * x23 + (-int_det3_of(x00, x01, x03, x10, x11, x13, x20, x21, x23)) * x33 == 0,
{
    lemma_det3_of_monomials(x10, x11, x13, x20, x21, x23, x30, x31, x33);
    lemma_distrib6((x10 * x21) * x33, (x10 * x23) * x31, (x11 * x20) * x33, (x11 * x23) * x30, (x13 * x20) * x31, (x13 * x21) * x30, x03);
    assert(((x10 * x21) * x33) * x03 == ((x03 * x10) * x21) * x33) by (nonlinear_arith);
    assert(((x10 * x23) * x31) * x03 == ((x03 * x10) * x23) * x31) by (nonlinear_arith);
    assert(((x11 * x20) * x33) * x03 == ((x03 * x11) * x20) * x33) by (nonlinear_arith);
    assert(((x11 * x23) * x30) * x03 == ((x03 * x11) * x23) * x30) by (nonlinear_arith);
    assert(((x13 * x20) * x31) * x03 == ((x03 * x13) * x20) * x31) by (nonlinear_arith);
    assert(((x13 * x21) * x30) * x03 == ((x03 * x13) * x21) * x30) by (nonlinear_arith);
    lemma_det3_of_monomials(x00, x01, x03, x20, x21, x23, x30, x31, x33);
    lemma_distrib6((x00 * x21) * x33, (x00 * x23) * x31, (x01 * x20) * x33, (x01 * x23) * x30, (x03 * x20) * x31, (x03 * x21) * x30, x13);
    assert(((x00 * x21) * x33) * x13 == ((x00 * x13) * x21) * x33) by (nonlinear_arith);
    assert(((x00 * x23) * x31) * x13 == ((x00 * x13) * x23) * x31) by (nonlinear_arith);
    assert(((x01 * x20) * x33) * x13 == ((x01 * x13) * x20) * x33) by (nonlinear_arith);
    assert(((x01 * x23) * x30) * x13 == ((x01 * x13) * x23) * x30) by (nonlinear_arith);
    assert(((x03 * x20) * x31) * x13 == ((x03 * x13) * x20) * x31) by (nonlinear_arith);
    assert(((x03 * x21) * x30) * x13 == ((x03 * x13) * x21) * x30) by (nonlinear_arith);
    lemma_det3_of_monomials(x00, x01, x03, x10, x11, x13, x30, x31, x33);
    lemma_distrib6((x00 * x11) * x33, (x00 * x13) * x31, (x01 * x10) * x33, (x01 * x13) * x30, (x03 * x10) * x31, (x03 * x11) * x30, x23);
    assert(((x00 * x11) * x33) * x23 == ((x00 * x11) * x23) * x33) by (nonlinear_arith);
    assert(((x00 * x13) * x31) * x23 == ((x00 * x13) * x23) * x31) by (nonlinear_arith);
    assert(((x01 * x10) * x33) * x23 == ((x01 * x10) * x23) * x33) by (nonlinear_arith);
    assert(((x01 * x13) * x30) * x23 == ((x01 * x13) * x23) * x30) by (nonlinear_arith);
    assert(((x03 * x10) * x31) * x23 == ((x03 * x10) * x23) * x31) by (nonlinear_arith);
    assert(((x03 * x11) * x30) * x23 == ((x03 * x11) * x23) * x30) by (nonlinear_arith);
    lemma_det3_of_monomials(x00, x01, x03, x10, x11, x13, x20, x21, x23);
    lemma_distrib6((x00 * x11) * x23, (x00 * x13) * x21, (x01 * x10) * x23, (x01 * x13) * x20, (x03 * x10) * x21, (x03 * x11) * x20, x33);
    assert(((x00 * x11) * x23) * x33 == ((x00 * x11) * x23) * x33) by (nonlinear_arith);
    assert(((x00 * x13) * x21) * x33 == ((x00 * x13) * x21) * x33) by (nonlinear_arith);
    assert(((x01 * x10) * x23) * x33 == ((x01 * x10) * x23) * x33) by (nonlinear_arith);
    assert(((x01 * x13) * x20) * x33 == ((x01 * x13) * x20) * x33) by (nonlinear_arith);
    assert(((x03 * x10) * x21) * x33 == ((x03 * x10) * x21) * x33) by (nonlinear_arith);
    assert(((x03 * x11) * x20) * x33 == ((x03 * x11) * x20) * x33) by (nonlinear_arith);
}

/// Cell (3, 0) of the transposed cofactors times the matrix.
proof fn lemma_cof4_cell_30(x00: int, x01: int, x02: int, x03: int, x10: int, x11: int, x12: int, x13: int, x20: int, x21: int, x22: int, x23: int, x30: int, x31: int, x32: int, x33: int)
    ensures
        (-int_det3_of(x10, x11, x12, x20, x21, x22, x30, x31, x32)) * x00 + int_det3_of(x00, x01, x02, x20, x21, x22, x30, x31, x32) * x10 + (-int_det3_of(x00, x01, x02, x10, x11, x12, x30, x31, x32)) * x20 + int_det3_of(x00, x01, x02, x10, x11, x12, x20, x21, x22) * x30 == 0,
{
    lemma_det3_of_monomials(x10, x11, x12, x20, x21, x22, x30, x31, x32);
    lemma_distrib6((x10 * x21) * x32, (x10 * x22) * x31, (x11 * x20) * x32, (x11 * x22) * x30, (x12 * x20) * x31, (x12 * x21) * x30, x00);
    assert(((x10 * x21) * x32) * x00 == ((x00 * x10) * x21) * x32) by (nonlinear_arith);
    assert(((x10 * x22) * x31) * x00 == ((x00 * x10) * x22) * x31) by (nonlinear_arith);
    assert(((x11 * x20) * x32) * x00 == ((x00 * x11) * x20) * x32) by (nonlinear_arith);
    assert(((x11 * x22) * x30) * x00 == ((x00 * x11) * x22) * x30) by (nonlinear_arith);
    assert(((x12 * x20) * x31) * x00 == ((x00 * x12) * x20) * x31) by (nonlinear_arith);
    assert(((x12 * x21) * x30) * x00 == ((x00 * x12) * x21) * x30) by (nonlinear_arith);
    lemma_det3_of_monomials(x00, x01, x02, x20, x21, x22, x30, x31, x32);
    lemma_distrib6((x00 * x21) * x32, (x00 * x22) * x31, (x01 * x20) * x32, (x01 * x22) * x30, (x02 * x20) * x31, (x02 * x21) * x30, x10);
    assert(((x00 * x21) * x32) * x10 == ((x00 * x10) * x21) * x32) by (nonlinear_arith);
    assert(((x00 * x22) * x31) * x10 == ((x00 * x10) * x22) * x31) by (nonlinear_arith);
    assert(((x01 * x20) * x32) * x10 == ((x01 * x10) * x20) * x32) by (nonlinear_arith);
    assert(((x01 * x22) * x30) * x10 == ((x01 * x10) * x22) * x30) by (nonlinear_arith);
    assert(((x02 * x20) * x31) * x10 == ((x02 * x10) * x20) * x31) by (nonlinear_arith);
    assert(((x02 * x21) * x30) * x10 == ((x02 * x10) * x21) * x30) by (nonlinear_arith);
    lemma_det3_of_monomials(x00, x01, x02, x10, x11, x12, x30, x31, x32);
    lemma_distrib6((x00 * x11) * x32, (x00 * x12) * x31, (x01 * x10) * x32, (x01 * x12) * x30, (x02 * x10) * x31, (x02 * x11) * x30, x20);
    assert(((x00 * x11) * x32) * x20 == ((x00 * x11) * x20) * x32) by (nonlinear_arith);
    assert(((x00 * x12) * x31) * x20 == ((x00 * x12) * x20) * x31) by (nonlinear_arith);
    assert(((x01 * x10) * x32) * x20 == ((x01 * x10) * x20) * x32) by (nonlinear_arith);
    assert(((x01 * x12) * x30) * x20 == ((x01 * x12) * x20) * x30) by (nonlinear_arith);
    assert(((x02 * x10) * x31) * x20 == ((x02 * x10) * x20) * x31) by (nonlinear_arith);
    assert(((x02 * x11) * x30) * x20 == ((x02 * x11) * x20) * x30) by (nonlinear_arith);
    lemma_det3_of_monomials(x00, x01, x02, x10, x11, x12, x20, x21, x22);
    lemma_distrib6((x00 * x11) * x22, (x00 * x12) * x21, (x01 * x10) * x22, (x01 * x12) * x20, (x02 * x10) * x21, (x02 * x11) * x20, x30);
    assert(((x00 * x11) * x22) * x30 == ((x00 * x11) * x22) * x30) by (nonlinear_arith);
    assert(((x00 * x12) * x21) * x30 == ((x00 * x12) * x21) * x30) by (nonlinear_arith);
    assert(((x01 * x10) * x22) * x30 == ((x01 * x10) * x22) * x30) by (nonlinear_arith);
    assert(((x01 * x12) * x20) * x30 == ((x01 * x12) * x20) * x30) by (nonlinear_arith);
    assert(((x02 * x10) * x21) * x30 == ((x02 * x10) * x21) * x30) by (nonlinear_arith);
    assert(((x02 * x11) * x20) * x30 == ((x02 * x11) * x20) * x30) by (nonlinear_arith);
}

/// Cell (3, 1) of the transposed cofactors times the matrix.
proof fn lemma_cof4_cell_31(x00: int, x01: int, x02: int, x03: int, x10: int, x11: int, x12: int, x13: int, x20: int, x21: int, x22: int, x23: int, x30: int, x31: int, x32: int, x33: int)
    ensures
        (-int_det3_of(x10, x11, x12, x20, x21, x22, x30, x31, x32)) * x01 + int_det3_of(x00, x01, x02, x20, x21, x22, x30, x31, x32) * x11 + (-int_det3_of(x00, x01, x02, x10, x11, x12, x30, x31, x32)) * x21 + int_det3_of(x00, x01, x02, x10, x11, x12, x20, x21, x22) * x31 == 0,
{
    lemma_det3_of_monomials(x10, x11, x12, x20, x21, x22, x30, x31, x32);
    lemma_distrib6((x10 * x21) * x32, (x10 * x22) * x31, (x11 * x20) * x32, (x11 * x22) * x30, (x12 * x20) * x31, (x12 * x21) * x30, x01);
    assert(((x10 * x21) * x32) * x01 == ((x01 * x10) * x21) * x32) by (nonlinear_arith);
    assert(((x10 * x22) * x31) * x01 == ((x01 * x10) * x22) * x31) by (nonlinear_arith);
    assert(((x11 * x20) * x32) * x01 == ((x01 * x11) * x20) * x32) by (nonlinear_arith);
    assert(((x11 * x22) * x30) * x01 == ((x01 * x11) * x22) * x30) by (nonlinear_arith);
    assert(((x12 * x20) * x31) * x01 == ((x01 * x12) * x20) * x31) by (nonlinear_arith);
    assert(((x12 * x21) * x30) * x01 == ((x01 * x12) * x21) * x30) by (nonlinear_arith);
    lemma_det3_of_monomials(x00, x01, x02, x20, x21, x22, x30, x31, x32);
    lemma_distrib6((x00 * x21) * x32, (x00 * x22) * x31, (x01 * x20) * x32, (x01 * x22) * x30, (x02 * x20) * x31, (x02 * x21) * x30, x11);
    assert(((x00 * x21) * x32) * x11 == ((x00 * x11) * x21) * x32) by (nonlinear_arith);
    assert(((x00 * x22) * x31) * x11 == ((x00 * x11) * x22) * x31) by (nonlinear_arith);
    assert(((x01 * x20) * x32) * x11 == ((x01 * x11) * x20) * x32) by (nonlinear_arith);
    assert(((x01 * x22) * x30) * x11 == ((x01 * x11) * x22) * x30) by (nonlinear_arith);
    assert(((x02 * x20) * x31) * x11 == ((x02 * x11) * x20) * x31) by (nonlinear_arith);
    assert(((x02 * x21) * x30) * x11 == ((x02 * x11) * x21) * x30) by (nonlinear_arith);
    lemma_det3_of_monomials(x00, x01, x02, x10, x11, x12, x30, x31, x32);
    lemma_distrib6((x00 * x11) * x32, (x00 * x12) * x31, (x01 * x10) * x32, (x01 * x12) * x30, (x02 * x10) * x31, (x02 * x11) * x30, x21);
    assert(((x00 * x11) * x32) * x21 == ((x00 * x11) * x21) * x32) by (nonlinear_arith);
    assert(((x00 * x12) * x31) * x21 == ((x00 * x12) * x21) * x31) by (nonlinear_arith);
    assert(((x01 * x10) * x32) * x21 == ((x01 * x10) * x21) * x32) by (nonlinear_arith);
    assert(((x01 * x12) * x30) * x21 == ((x01 * x12) * x21) * x30) by (nonlinear_arith);
    assert(((x02 * x10) * x31) * x21 == ((x02 * x10) * x21) * x31) by (nonlinear_arith);
    assert(((x02 * x11) * x30) * x21 == ((x02 * x11) * x21) * x30) by (nonlinear_arith);
    lemma_det3_of_monomials(x00, x01, x02, x10, x11, x12, x20, x21, x22);
    lemma_distrib6((x00 * x11) * x22, (x00 * x12) * x21, (x01 * x10) * x22, (x01 * x12) * x20, (x02 * x10) * x21, (x02 * x11) * x20, x31);
    assert(((x00 * x11) * x22) * x31 == ((x00 * x11) * x22) * x31) by (nonlinear_arith);
    assert(((x00 * x12) * x21) * x31 == ((x00 * x12) * x21) * x31) by (nonlinear_arith);
    assert(((x01 * x10) * x22) * x31 == ((x01 * x10) * x22) * x31) by (nonlinear_arith);
    assert(((x01 * x12) * x20) * x31 == ((x01 * x12) * x20) * x31) by (nonlinear_arith);
    assert(((x02 * x10) * x21) * x31 == ((x02 * x10) * x21) * x31) by (nonlinear_arith);
    assert(((x02 * x11) * x20) * x31 == ((x02 * x11) * x20) * x31) by (nonlinear_arith);
}

/// Cell (3, 2) of the transposed cofactors times the matrix.
proof fn lemma_cof4_cell_32(x00: int, x01: int, x02: int, x03: int, x10: int, x11: int, x12: int, x13: int, x20: int, x21: int, x22: int, x23: int, x30: int, x31: int, x32: int, x33: int)
    ensures
        (-int_det3_of(x10, x11, x12, x20, x21, x22, x30, x31, x32)) * x02 + int_det3_of(x00, x01, x02, x20, x21, x22, x30, x31, x32) * x12 + (-int_det3_of(x00, x01, x02, x10, x11, x12, x30, x31, x32)) * x22 + int_det3_of(x00, x01, x02, x10, x11, x12, x20, x21, x22) * x32 == 0,
{
    lemma_det3_of_monomials(x10, x11, x12, x20, x21, x22, x30, x31, x32);
    lemma_distrib6((x10 * x21) * x32, (x10 * x22) * x31, (x11 * x20) * x32, (x11 * x22) * x30, (x12 * x20) * x31, (x12 * x21) * x30, x02);
    assert(((x10 * x21) * x32) * x02 == ((x02 * x10) * x21) * x32) by (nonlinear_arith);
    assert(((x10 * x22) * x31) * x02 == ((x02 * x10) * x22) * x31) by (nonlinear_arith);
    assert(((x11 * x20) * x32) * x02 == ((x02 * x11) * x20) * x32) by (nonlinear_arith);
    assert(((x11 * x22) * x30) * x02 == ((x02 * x11) * x22) * x30) by (nonlinear_arith);
    assert(((x12 * x20) * x31) * x02 == ((x02 * x12) * x20) * x31) by (nonlinear_arith);
    assert(((x12 * x21) * x30) * x02 == ((x02 * x12) * x21) * x30) by (nonlinear_arith);
    lemma_det3_of_monomials(x00, x01, x02, x20, x21, x22, x30, x31, x32);
    lemma_distrib6((x00 * x21) * x32, (x00 * x22) * x31, (x01 * x20) * x32, (x01 * x22) * x30, (x02 * x20) * x31, (x02 * x21) * x30, x12);
    assert(((x00 * x21) * x32) * x12 == ((x00 * x12) * x21) * x32) by (nonlinear_arith);
    assert(((x00 * x22) * x31) * x12 == ((x00 * x12) * x22) * x31) by (nonlinear_arith);
    assert(((x01 * x20) * x32) * x12 == ((x01 * x12) * x20) * x32) by (nonlinear_arith);
    assert(((x01 * x22) * x30) * x12 == ((x01 * x12) * x22) * x30) by (nonlinear_arith);
    assert(((x02 * x20) * x31) * x12 == ((x02 * x12) * x20) * x31) by (nonlinear_arith);
    assert(((x02 * x21) * x30) * x12 == ((x02 * x12) * x21) * x30) by (nonlinear_arith);
    lemma_det3_of_monomials(x00, x01, x02, x10, x11, x12, x30, x31, x32);
    lemma_distrib6((x00 * x11) * x32, (x00 * x12) * x31, (x01 * x10) * x32, (x01 * x12) * x30, (x02 * x10) * x31, (x02 * x11) * x30, x22);
    assert(((x00 * x11) * x32) * x22 == ((x00 * x11) * x22) * x32) by (nonlinear_arith);
    assert(((x00 * x12) * x31) * x22 == ((x00 * x12) * x22) * x31) by (nonlinear_arith);
    assert(((x01 * x10) * x32) * x22 == ((x01 * x10) * x22) * x32) by (nonlinear_arith);
    assert(((x01 * x12) * x30) * x22 == ((x01 * x12) * x22) * x30) by (nonlinear_arith);
    assert(((x02 * x10) * x31) * x22 == ((x02 * x10) * x22) * x31) by (nonlinear_arith);
    assert(((x02 * x11) * x30) * x22 == ((x02 * x11) * x22) * x30) by (nonlinear_arith);
    lemma_det3_of_monomials(x00, x01, x02, x10, x11, x12, x20, x21, x22);
    lemma_distrib6((x00 * x11) * x22, (x00 * x12) * x21, (x01 * x10) * x22, (x01 * x12) * x20, (x02 * x10) * x21, (x02 * x11) * x20, x32);
    assert(((x00 * x11) * x22) * x32 == ((x00 * x11) * x22) * x32) by (nonlinear_arith);
    assert(((x00 * x12) * x21) * x32 == ((x00 * x12) * x21) * x32) by (nonlinear_arith);
    assert(((x01 * x10) * x22) * x32 == ((x01 * x10) * x22) * x32) by (nonlinear_arith);
    assert(((x01 * x12) * x20) * x32 == ((x01 * x12) * x20) * x32) by (nonlinear_arith);
    assert(((x02 * x10) * x21) * x32 == ((x02 * x10) * x21) * x32) by (nonlinear_arith);
    assert(((x02 * x11) * x20) * x32 == ((x02 * x11) * x20) * x32) by (nonlinear_arith);
}

/// Cell (3, 3) of the transposed cofactors times the matrix.
proof fn lemma_cof4_cell_33(x00: int, x01: int, x02: int, x03: int, x10: int, x11: int, x12: int, x13: int, x20: int, x21: int, x22: int, x23: int, x30: int, x31: int, x32: int, x33: int)
    ensures
        (-int_det3_of(x10, x11, x12, x20, x21, x22, x30, x31, x32)) * x03 + int_det3_of(x00, x01, x02, x20, x21, x22, x30, x31, x32) * x13 + (-int_det3_of(x00, x01, x02, x10, x11, x12, x30, x31, x32)) * x23 + int_det3_of(x00, x01, x02, x10, x11, x12, x20, x21, x22) * x33 == ((x00 * x11) * x22) * x33 - ((x00 * x11) * x23) * x32 - ((x00 * x12) * x21) * x33 + ((x00 * x12) * x23) * x31 + ((x00 * x13) * x21) * x32 - ((x00 * x13) * x22) * x31 - ((x01 * x10) * x22) * x33 + ((x01 * x10) * x23) * x32 + ((x01 * x12) * x20) * x33 - ((x01 * x12) * x23) * x30 - ((x01 * x13) * x20) * x32 + ((x01 * x13) * x22) * x30 + ((x02 * x10) * x21) * x33 - ((x02 * x10) * x23) * x31 - ((x02 * x11) * x20) * x33 + ((x02 * x11) * x23) * x30 + ((x02 * x13) * x20) * x31 - ((x02 * x13) * x21) * x30 - ((x03 * x10) * x21) * x32 + ((x03 * x10) * x22) * x31 + ((x03 * x11) * x20) * x32 - ((x03 * x11) * x22) * x30 - ((x03 * x12) * x20) * x31 + ((x03 * x12) * x21) * x30,
{
    lemma_det3_of_monomials(x10, x11, x12, x20, x21, x22, x30, x31, x32);
    lemma_distrib6((x10 * x21) * x32, (x10 * x22) * x31, (x11 * x20) * x32, (x11 * x22) * x30, (x12 * x20) * x31, (x12 * x21) * x30, x03);
    assert(((x10 * x21) * x32) * x03 == ((x03 * x10) * x21) * x32) by (nonlinear_arith);
    assert(((x10 * x22) * x31) * x03 == ((x03 * x10) * x22) * x31) by (nonlinear_arith);
    assert(((x11 * x20) * x32) * x03 == ((x03 * x11) * x20) * x32) by (nonlinear_arith);
    assert(((x11 * x22) * x30) * x03 == ((x03 * x11) * x22) * x30) by (nonlinear_arith);
    assert(((x12 * x20) * x31) * x03 == ((x03 * x12) * x20) * x31) by (nonlinear_arith);
    assert(((x12 * x21) * x30) * x03 == ((x03 * x12) * x21) * x30) by (nonlinear_arith);
    lemma_det3_of_monomials(x00, x01, x02, x20, x21, x22, x30, x31, x32);
    lemma_distrib6((x00 * x21) * x32, (x00 * x22) * x31, (x01 * x20) * x32, (x01 * x22) * x30, (x02 * x20) * x31, (x02 * x21) * x30, x13);
    assert(((x00 * x21) * x32) * x13 == ((x00 * x13) * x21) * x32) by (nonlinear_arith);
    assert(((x00 * x22) * x31) * x13 == ((x00 * x13) * x22) * x31) by (nonlinear_arith);
    assert(((x01 * x20) * x32) * x13 == ((x01 * x13) * x20) * x32) by (nonlinear_arith);
    assert(((x01 * x22) * x30) * x13 == ((x01 * x13) * x22) * x30) by (nonlinear_arith);
    assert(((x02 * x20) * x31) * x13 == ((x02 * x13) * x20) * x31) by (nonlinear_arith);
    assert(((x02 * x21) * x30) * x13 == ((x02 * x13) * x21) * x30) by (nonlinear_arith);
    lemma_det3_of_monomials(x00, x01, x02, x10, x11, x12, x30, x31, x32);
    lemma_distrib6((x00 * x11) * x32, (x00 * x12) * x31, (x01 * x10) * x32, (x01 * x12) * x30, (x02 * x10) * x31, (x02 * x11) * x30, x23);
    assert(((x00 * x11) * x32) * x23 == ((x00 * x11) * x23) * x32) by (nonlinear_arith);
    assert(((x00 * x12) * x31) * x23 == ((x00 * x12) * x23) * x31) by (nonlinear_arith);
    assert(((x01 * x10) * x32) * x23 == ((x01 * x10) * x23) * x32) by (nonlinear_arith);
    assert(((x01 * x12) * x30) * x23 == ((x01 * x12) * x23) * x30) by (nonlinear_arith);
    assert(((x02 * x10) * x31) * x23 == ((x02 * x10) * x23) * x31) by (nonlinear_arith);
    assert(((x02 * x11) * x30) * x23 == ((x02 * x11) * x23) * x30) by (nonlinear_arith);
    lemma_det3_of_monomials(x00, x01, x02, x10, x11, x12, x20, x21, x22);
    lemma_distrib6((x00 * x11) * x22, (x00 * x12) * x21, (x01 * x10) * x22, (x01 * x12) * x20, (x02 * x10) * x21, (x02 * x11) * x20, x33);
    assert(((x00 * x11) * x22) * x33 == ((x00 * x11) * x22) * x33) by (nonlinear_arith);
    assert(((x00 * x12) * x21) * x33 == ((x00 * x12) * x21) * x33) by (nonlinear_arith);
    assert(((x01 * x10) * x22) * x33 == ((x01 * x10) * x22) * x33) by (nonlinear_arith);
    assert(((x01 * x12) * x20) * x33 == ((x01 * x12) * x20) * x33) by (nonlinear_arith);
    assert(((x02 * x10) * x21) * x33 == ((x02 * x10) * x21) * x33) by (nonlinear_arith);
    assert(((x02 * x11) * x20) * x33 == ((x02 * x11) * x20) * x33) by (nonlinear_arith);
}

/// The first-row cofactor expansion of a 4 by 4 determinant equals its
/// twenty-four signed monomials.
proof fn lemma_det4_monomials(x00: int, x01: int, x02: int, x03: int, x10: int, x11: int, x12: int, x13: int, x20: int, x21: int, x22: int, x23: int, x30: int, x31: int, x32: int, x33: int)
    ensures
        x00 * int_det3_of(x11, x12, x13, x21, x22, x23, x31, x32, x33) + x01 * (-int_det3_of(x10, x12, x13, x20, x22, x23, x30, x32, x33)) + x02 * int_det3_of(x10, x11, x13, x20, x21, x23, x30, x31, x33) + x03 * (-int_det3_of(x10, x11, x12, x20, x21, x22, x30, x31, x32)) == ((x00 * x11) * x22) * x33 - ((x00 * x11) * x23) * x32 - ((x00 * x12) * x21) * x33 + ((x00 * x12) * x23) * x31 + ((x00 * x13) * x21) * x32 - ((x00 * x13) * x22) * x31 - ((x01 * x10) * x22) * x33 + ((x01 * x10) * x23) * x32 + ((x01 * x12) * x20) * x33 - ((x01 * x12) * x23) * x30 - ((x01 * x13) * x20) * x32 + ((x01 * x13) * x22) * x30 + ((x02 * x10) * x21) * x33 - ((x02 * x10) * x23) * x31 - ((x02 * x11) * x20) * x33 + ((x02 * x11) * x23) * x30 + ((x02 * x13) * x20) * x31 - ((x02 * x13) * x21) * x30 - ((x03 * x10) * x21) * x32 + ((x03 * x10) * x22) * x31 + ((x03 * x11) * x20) * x32 - ((x03 * x11) * x22) * x30 - ((x03 * x12) * x20) * x31 + ((x03 * x12) * x21) * x30,
{
    lemma_det3_of_monomials(x11, x12, x13, x21, x22, x23, x31, x32, x33);
    lemma_distrib6((x11 * x22) * x33, (x11 * x23) * x32, (x12 * x21) * x33, (x12 * x23) * x31, (x13 * x21) * x32, (x13 * x22) * x31, x00);
    assert(x00 * ((x11 * x22) * x33) == ((x00 * x11) * x22) * x33) by (nonlinear_arith);
    assert(x00 * ((x11 * x23) * x32) == ((x00 * x11) * x23) * x32) by (nonlinear_arith);
    assert(x00 * ((x12 * x21) * x33) == ((x00 * x12) * x21) * x33) by (nonlinear_arith);
    assert(x00 * ((x12 * x23) * x31) == ((x00 * x12) * x23) * x31) by (nonlinear_arith);
    assert(x00 * ((x13 * x21) * x32) == ((x00 * x13) * x21) * x32) by (nonlinear_arith);
    assert(x00 * ((x13 * x22) * x31) == ((x00 * x13) * x22) * x31) by (nonlinear_arith);
    lemma_det3_of_monomials(x10, x12, x13, x20, x22, x23, x30, x32, x33);
    lemma_distrib6((x10 * x22) * x33, (x10 * x23) * x32, (x12 * x20) * x33, (x12 * x23) * x30, (x13 * x20) * x32, (x13 * x22) * x30, x01);
    assert(x01 * ((x10 * x22) * x33) == ((x01 * x10) * x22) * x33) by (nonlinear_arith);
    assert(x01 * ((x10 * x23) * x32) == ((x01 * x10) * x23) * x32) by (nonlinear_arith);
    assert(x01 * ((x12 * x20) * x33) == ((x01 * x12) * x20) * x33) by (nonlinear_arith);
    assert(x01 * ((x12 * x23) * x30) == ((x01 * x12) * x23) * x30) by (nonlinear_arith);
    assert(x01 * ((x13 * x20) * x32) == ((x01 * x13) * x20) * x32) by (nonlinear_arith);
    assert(x01 * ((x13 * x22) * x30) == ((x01 * x13) * x22) * x30) by (nonlinear_arith);
    lemma_det3_of_monomials(x10, x11, x13, x20, x21, x23, x30, x31, x33);
    lemma_distrib6((x10 * x21) * x33, (x10 * x23) * x31, (x11 * x20) * x33, (x11 * x23) * x30, (x13 * x20) * x31, (x13 * x21) * x30, x02);
    assert(x02 * ((x10 * x21) * x33) == ((x02 * x10) * x21) * x33) by (nonlinear_arith);
    assert(x02 * ((x10 * x23) * x31) == ((x02 * x10) * x23) * x31) by (nonlinear_arith);
    assert(x02 * ((x11 * x20) * x33) == ((x02 * x11) * x20) * x33) by (nonlinear_arith);
    assert(x02 * ((x11 * x23) * x30) == ((x02 * x11) * x23) * x30) by (nonlinear_arith);
    assert(x02 * ((x13 * x20) * x31) == ((x02 * x13) * x20) * x31) by (nonlinear_arith);
    assert(x02 * ((x13 * x21) * x30) == ((x02 * x13) * x21) * x30) by (nonlinear_arith);
    lemma_det3_of_monomials(x10, x11, x12, x20, x21, x22, x30, x31, x32);
    lemma_distrib6((x10 * x21) * x32, (x10 * x22) * x31, (x11 * x20) * x32, (x11 * x22) * x30, (x12 * x20) * x31, (x12 * x21) * x30, x03);
    assert(x03 * ((x10 * x21) * x32) == ((x03 * x10) * x21) * x32) by (nonlinear_arith);
    assert(x03 * ((x10 * x22) * x31) == ((x03 * x10) * x22) * x31) by (nonlinear_arith);
    assert(x03 * ((x11 * x20) * x32) == ((x03 * x11) * x20) * x32) by (nonlinear_arith);
    assert(x03 * ((x11 * x22) * x30) == ((x03 * x11) * x22) * x30) by (nonlinear_arith);
    assert(x03 * ((x12 * x20) * x31) == ((x03 * x12) * x20) * x31) by (nonlinear_arith);
    assert(x03 * ((x12 * x21) * x30) == ((x03 * x12) * x21) * x30) by (nonlinear_arith);
}

/// The exact adjugate law for 4 by 4 matrices: the transposed cofactor
/// matrix times the matrix is the exact integer determinant times the
/// identity matrix.
#[verifier::rlimit(50)]
pub proof fn lemma_adjugate_times_matrix4(m: Matrix4)
    ensures
        int_cof4(m, 0, 0) * at4(m, 0, 0) + int_cof4(m, 1, 0) * at4(m, 1, 0) + int_cof4(m, 2, 0) * at4(m, 2, 0) + int_cof4(m, 3, 0) * at4(m, 3, 0) == int_det4(m),
        int_cof4(m, 0, 0) * at4(m, 0, 1) + int_cof4(m, 1, 0) * at4(m, 1, 1) + int_cof4(m, 2, 0) * at4(m, 2, 1) + int_cof4(m, 3, 0) * at4(m, 3, 1) == 0,
        int_cof4(m, 0, 0) * at4(m, 0, 2) + int_cof4(m, 1, 0) * at4(m, 1, 2) + int_cof4(m, 2, 0) * at4(m, 2, 2) + int_cof4(m, 3, 0) * at4(m, 3, 2) == 0,
        int_cof4(m, 0, 0) * at4(m, 0, 3) + int_cof4(m, 1, 0) * at4(m, 1, 3) + int_cof4(m, 2, 0) * at4(m, 2, 3) + int_cof4(m, 3, 0) * at4(m, 3, 3) == 0,
        int_cof4(m, 0, 1) * at4(m, 0, 0) + int_cof4(m, 1, 1) * at4(m, 1, 0) + int_cof4(m, 2, 1) * at4(m, 2, 0) + int_cof4(m, 3, 1) * at4(m, 3, 0) == 0,
        int_cof4(m, 0, 1) * at4(m, 0, 1) + int_cof4(m, 1, 1) * at4(m, 1, 1) + int_cof4(m, 2, 1) * at4(m, 2, 1) + int_cof4(m, 3, 1) * at4(m, 3, 1) == int_det4(m),
        int_cof4(m, 0, 1) * at4(m, 0, 2) + int_cof4(m, 1, 1) * at4(m, 1, 2) + int_cof4(m, 2, 1) * at4(m, 2, 2) + int_cof4(m, 3, 1) * at4(m, 3, 2) == 0,
        int_cof4(m, 0, 1) * at4(m, 0, 3) + int_cof4(m, 1, 1) * at4(m, 1, 3) + int_cof4(m, 2, 1) * at4(m, 2, 3) + int_cof4(m, 3, 1) * at4(m, 3, 3) == 0,
        int_cof4(m, 0, 2) * at4(m, 0, 0) + int_cof4(m, 1, 2) * at4(m, 1, 0) + int_cof4(m, 2, 2) * at4(m, 2, 0) + int_cof4(m, 3, 2) * at4(m, 3, 0) == 0,
        int_cof4(m, 0, 2) * at4(m, 0, 1) + int_cof4(m, 1, 2) * at4(m, 1, 1) + int_cof4(m, 2, 2) * at4(m, 2, 1) + int_cof4(m, 3, 2) * at4(m, 3, 1) == 0,
        int_cof4(m, 0, 2) * at4(m, 0, 2) + int_cof4(m, 1, 2) * at4(m, 1, 2) + int_cof4(m, 2, 2) * at4(m, 2, 2) + int_cof4(m, 3, 2) * at4(m, 3, 2) == int_det4(m),
        int_cof4(m, 0, 2) * at4(m, 0, 3) + int_cof4(m, 1, 2) * at4(m, 1, 3) + int_cof4(m, 2, 2) * at4(m, 2, 3) + int_cof4(m, 3, 2) * at4(m, 3, 3) == 0,
        int_cof4(m, 0, 3) * at4(m, 0, 0) + int_cof4(m, 1, 3) * at4(m, 1, 0) + int_cof4(m, 2, 3) * at4(m, 2, 0) + int_cof4(m, 3, 3) * at4(m, 3, 0) == 0,
        int_cof4(m, 0, 3) * at4(m, 0, 1) + int_cof4(m, 1, 3) * at4(m, 1, 1) + int_cof4(m, 2, 3) * at4(m, 2, 1) + int_cof4(m, 3, 3) * at4(m, 3, 1) == 0,
        int_cof4(m, 0, 3) * at4(m, 0, 2) + int_cof4(m, 1, 3) * at4(m, 1, 2) + int_cof4(m, 2, 3) * at4(m, 2, 2) + int_cof4(m, 3, 3) * at4(m, 3, 2) == 0,
        int_cof4(m, 0, 3) * at4(m, 0, 3) + int_cof4(m, 1, 3) * at4(m, 1, 3) + int_cof4(m, 2, 3) * at4(m, 2, 3) + int_cof4(m, 3, 3) * at4(m, 3, 3) == int_det4(m),
{
    assert(int_cof4(m, 0, 0) == int_det3_of(at4(m, 1, 1), at4(m, 1, 2), at4(m, 1, 3), at4(m, 2, 1), at4(m, 2, 2), at4(m, 2, 3), at4(m, 3, 1), at4(m, 3, 2), at4(m, 3, 3)));
    assert(int_cof4(m, 0, 1) == -int_det3_of(at4(m, 1, 0), at4(m, 1, 2), at4(m, 1, 3), at4(m, 2, 0), at4(m, 2, 2), at4(m, 2, 3), at4(m, 3, 0), at4(m, 3, 2), at4(m, 3, 3)));
    assert(int_cof4(m, 0, 2) == int_det3_of(at4(m, 1, 0), at4(m, 1, 1), at4(m, 1, 3), at4(m, 2, 0), at4(m, 2, 1), at4(m, 2, 3), at4(m, 3, 0), at4(m, 3, 1), at4(m, 3, 3)));
    assert(int_cof4(m, 0, 3) == -int_det3_of(at4(m, 1, 0), at4(m, 1, 1), at4(m, 1, 2), at4(m, 2, 0), at4(m, 2, 1), at4(m, 2, 2), at4(m, 3, 0), at4(m, 3, 1), at4(m, 3, 2)));
    assert(int_cof4(m, 1, 0) == -int_det3_of(at4(m, 0, 1), at4(m, 0, 2), at4(m, 0, 3), at4(m, 2, 1), at4(m, 2, 2), at4(m, 2, 3), at4(m, 3, 1), at4(m, 3, 2), at4(m, 3, 3)));
    assert(int_cof4(m, 1, 1) == int_det3_of(at4(m, 0, 0), at4(m, 0, 2), at4(m, 0, 3), at4(m, 2, 0), at4(m, 2, 2), at4(m, 2, 3), at4(m, 3, 0), at4(m, 3, 2), at4(m, 3, 3)));
    assert(int_cof4(m, 1, 2) == -int_det3_of(at4(m, 0, 0), at4(m, 0, 1), at4(m, 0, 3), at4(m, 2, 0), at4(m, 2, 1), at4(m, 2, 3), at4(m, 3, 0), at4(m, 3, 1), at4(m, 3, 3)));
    assert(int_cof4(m, 1, 3) == int_det3_of(at4(m, 0, 0), at4(m, 0, 1), at4(m, 0, 2), at4(m, 2, 0), at4(m, 2, 1), at4(m, 2, 2), at4(m, 3, 0), at4(m, 3, 1), at4(m, 3, 2)));
    assert(int_cof4(m, 2, 0) == int_det3_of(at4(m, 0, 1), at4(m, 0, 2), at4(m, 0, 3), at4(m, 1, 1), at4(m, 1, 2), at4(m, 1, 3), at4(m, 3, 1), at4(m, 3, 2), at4(m, 3, 3)));
    assert(int_cof4(m, 2, 1) == -int_det3_of(at4(m, 0, 0), at4(m, 0, 2), at4(m, 0, 3), at4(m, 1, 0), at4(m, 1, 2), at4(m, 1, 3), at4(m, 3, 0), at4(m, 3, 2), at4(m, 3, 3)));
    assert(int_cof4(m, 2, 2) == int_det3_of(at4(m, 0, 0), at4(m, 0, 1), at4(m, 0, 3), at4(m, 1, 0), at4(m, 1, 1), at4(m, 1, 3), at4(m, 3, 0), at4(m, 3, 1), at4(m, 3, 3)));
    assert(int_cof4(m, 2, 3) == -int_det3_of(at4(m, 0, 0), at4(m, 0, 1), at4(m, 0, 2), at4(m, 1, 0), at4(m, 1, 1), at4(m, 1, 2), at4(m, 3, 0), at4(m, 3, 1), at4(m, 3, 2)));
    assert(int_cof4(m, 3, 0) == -int_det3_of(at4(m, 0, 1), at4(m, 0, 2), at4(m, 0, 3), at4(m, 1, 1), at4(m, 1, 2), at4(m, 1, 3), at4(m, 2, 1), at4(m, 2, 2), at4(m, 2, 3)));
    assert(int_cof4(m, 3, 1) == int_det3_of(at4(m, 0, 0), at4(m, 0, 2), at4(m, 0, 3), at4(m, 1, 0), at4(m, 1, 2), at4(m, 1, 3), at4(m, 2, 0), at4(m, 2, 2), at4(m, 2, 3)));
    assert(int_cof4(m, 3, 2) == -int_det3_of(at4(m, 0, 0), at4(m, 0, 1), at4(m, 0, 3), at4(m, 1, 0), at4(m, 1, 1), at4(m, 1, 3), at4(m, 2, 0), at4(m, 2, 1), at4(m, 2, 3)));
    assert(int_cof4(m, 3, 3) == int_det3_of(at4(m, 0, 0), at4(m, 0, 1), at4(m, 0, 2), at4(m, 1, 0), at4(m, 1, 1), at4(m, 1, 2), at4(m, 2, 0), at4(m, 2, 1), at4(m, 2, 2)));
    lemma_det4_monomials(at4(m, 0, 0), at4(m, 0, 1), at4(m, 0, 2), at4(m, 0, 3), at4(m, 1, 0), at4(m, 1, 1), at4(m, 1, 2), at4(m, 1, 3), at4(m, 2, 0), at4(m, 2, 1), at4(m, 2, 2), at4(m, 2, 3), at4(m, 3, 0), at4(m, 3, 1), at4(m, 3, 2), at4(m, 3, 3));
    lemma_cof4_cell_00(at4(m, 0, 0), at4(m, 0, 1), at4(m, 0, 2), at4(m, 0, 3), at4(m, 1, 0), at4(m, 1, 1), at4(m, 1, 2), at4(m, 1, 3), at4(m, 2, 0), at4(m, 2, 1), at4(m, 2, 2), at4(m, 2, 3), at4(m, 3, 0), at4(m, 3, 1), at4(m, 3, 2), at4(m, 3, 3));
    lemma_cof4_cell_01(at4(m, 0, 0), at4(m, 0, 1), at4(m, 0, 2), at4(m, 0, 3), at4(m, 1, 0), at4(m, 1, 1), at4(m, 1, 2), at4(m, 1, 3), at4(m, 2, 0), at4(m, 2, 1), at4(m, 2, 2), at4(m, 2, 3), at4(m, 3, 0), at4(m, 3, 1), at4(m, 3, 2), at4(m, 3, 3));
    lemma_cof4_cell_02(at4(m, 0, 0), at4(m, 0, 1), at4(m, 0, 2), at4(m, 0, 3), at4(m, 1, 0), at4(m, 1, 1), at4(m, 1, 2), at4(m, 1, 3), at4(m, 2, 0), at4(m, 2, 1), at4(m, 2, 2), at4(m, 2, 3), at4(m, 3, 0), at4(m, 3, 1), at4(m, 3, 2), at4(m, 3, 3));
    lemma_cof4_cell_03(at4(m, 0, 0), at4(m, 0, 1), at4(m, 0, 2), at4(m, 0, 3), at4(m, 1, 0), at4(m, 1, 1), at4(m, 1, 2), at4(m, 1, 3), at4(m, 2, 0), at4(m, 2, 1), at4(m, 2, 2), at4(m, 2, 3), at4(m, 3, 0), at4(m, 3, 1), at4(m, 3, 2), at4(m, 3, 3));
    lemma_cof4_cell_10(at4(m, 0, 0), at4(m, 0, 1), at4(m, 0, 2), at4(m, 0, 3), at4(m, 1, 0), at4(m, 1, 1), at4(m, 1, 2), at4(m, 1, 3), at4(m, 2, 0), at4(m, 2, 1), at4(m, 2, 2), at4(m, 2, 3), at4(m, 3, 0), at4(m, 3, 1), at4(m, 3, 2), at4(m, 3, 3));
    lemma_cof4_cell_11(at4(m, 0, 0), at4(m, 0, 1), at4(m, 0, 2), at4(m, 0, 3), at4(m, 1, 0), at4(m, 1, 1), at4(m, 1, 2), at4(m, 1, 3), at4(m, 2, 0), at4(m, 2, 1), at4(m, 2, 2), at4(m, 2, 3), at4(m, 3, 0), at4(m, 3, 1), at4(m, 3, 2), at4(m, 3, 3));
    lemma_cof4_cell_12(at4(m, 0, 0), at4(m, 0, 1), at4(m, 0, 2), at4(m, 0, 3), at4(m, 1, 0), at4(m, 1, 1), at4(m, 1, 2), at4(m, 1, 3), at4(m, 2, 0), at4(m, 2, 1), at4(m, 2, 2), at4(m, 2, 3), at4(m, 3, 0), at4(m, 3, 1), at4(m, 3, 2), at4(m, 3, 3));
    lemma_cof4_cell_13(at4(m, 0, 0), at4(m, 0, 1), at4(m, 0, 2), at4(m, 0, 3), at4(m, 1, 0), at4(m, 1, 1), at4(m, 1, 2), at4(m, 1, 3), at4(m, 2, 0), at4(m, 2, 1), at4(m, 2, 2), at4(m, 2, 3), at4(m, 3, 0), at4(m, 3, 1), at4(m, 3, 2), at4(m, 3, 3));
    lemma_cof4_cell_20(at4(m, 0, 0), at4(m, 0, 1), at4(m, 0, 2), at4(m, 0, 3), at4(m, 1, 0), at4(m, 1, 1), at4(m, 1, 2), at4(m, 1, 3), at4(m, 2, 0), at4(m, 2, 1), at4(m, 2, 2), at4(m, 2, 3), at4(m, 3, 0), at4(m, 3, 1), at4(m, 3, 2), at4(m, 3, 3));
    lemma_cof4_cell_21(at4(m, 0, 0), at4(m, 0, 1), at4(m, 0, 2), at4(m, 0, 3), at4(m, 1, 0), at4(m, 1, 1), at4(m, 1, 2), at4(m, 1, 3), at4(m, 2, 0), at4(m, 2, 1), at4(m, 2, 2), at4(m, 2, 3), at4(m, 3, 0), at4(m, 3, 1), at4(m, 3, 2), at4(m, 3, 3));
    lemma_cof4_cell_22(at4(m, 0, 0), at4(m, 0, 1), at4(m, 0, 2), at4(m, 0, 3), at4(m, 1, 0), at4(m, 1, 1), at4(m, 1, 2), at4(m, 1, 3), at4(m, 2, 0), at4(m, 2, 1), at4(m, 2, 2), at4(m, 2, 3), at4(m, 3, 0), at4(m, 3, 1), at4(m, 3, 2), at4(m, 3, 3));
    lemma_cof4_cell_23(at4(m, 0, 0), at4(m, 0, 1), at4(m, 0, 2), at4(m, 0, 3), at4(m, 1, 0), at4(m, 1, 1), at4(m, 1, 2), at4(m, 1, 3), at4(m, 2, 0), at4(m, 2, 1), at4(m, 2, 2), at4(m, 2, 3), at4(m, 3, 0), at4(m, 3, 1), at4(m, 3, 2), at4(m, 3, 3));
    lemma_cof4_cell_30(at4(m, 0, 0), at4(m, 0, 1), at4(m, 0, 2), at4(m, 0, 3), at4(m, 1, 0), at4(m, 1, 1), at4(m, 1, 2), at4(m, 1, 3), at4(m, 2, 0), at4(m, 2, 1), at4(m, 2, 2), at4(m, 2, 3), at4(m, 3, 0), at4(m, 3, 1), at4(m, 3, 2), at4(m, 3, 3));
    lemma_cof4_cell_31(at4(m, 0, 0), at4(m, 0, 1), at4(m, 0, 2), at4(m, 0, 3), at4(m, 1, 0), at4(m, 1, 1), at4(m, 1, 2), at4(m, 1, 3), at4(m, 2, 0), at4(m, 2, 1), at4(m, 2, 2), at4(m, 2, 3), at4(m, 3, 0), at4(m, 3, 1), at4(m, 3, 2), at4(m, 3, 3));
    lemma_cof4_cell_32(at4(m, 0, 0), at4(m, 0, 1), at4(m, 0, 2), at4(m, 0, 3), at4(m, 1, 0), at4(m, 1, 1), at4(m, 1, 2), at4(m, 1, 3), at4(m, 2, 0), at4(m, 2, 1), at4(m, 2, 2), at4(m, 2, 3), at4(m, 3, 0), at4(m, 3, 1), at4(m, 3, 2), at4(m, 3, 3));
    lemma_cof4_cell_33(at4(m, 0, 0), at4(m, 0, 1), at4(m, 0, 2), at4(m, 0, 3), at4(m, 1, 0), at4(m, 1, 1), at4(m, 1, 2), at4(m, 1, 3), at4(m, 2, 0), at4(m, 2, 1), at4(m, 2, 2), at4(m, 2, 3), at4(m, 3, 0), at4(m, 3, 1), at4(m, 3, 2), at4(m, 3, 3));
}

} // verus!


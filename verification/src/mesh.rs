//! The mesh geometry model: vertex and face-index storage with the
//! invariant that every face index is in range, faces materialized through
//! the index lists, bounding extremes, and uniform scaling with an exact
//! no-op fast path for a factor of one.

use vstd::prelude::*;
use crate::fixed::{abs_int, fits_i64, fx_div_spec, fx_mul_spec, tdiv, FX_ONE};
use crate::geometry::{bounded3, Point3};

verus! {

/// The coordinate bound under which mesh arithmetic stays in range
/// (2^26 raw, a coordinate value of 1024).
pub const MESH_BOUND: i64 = 0x400_0000;

/// A face: the positions of its vertices, in order, copied through the
/// mesh's index list.
pub struct Face {
    pub vertices: Vec<Point3>,
}

impl Face {
    pub fn new(vertices: Vec<Point3>) -> (r: Face)
        ensures
            r.vertices@ == vertices@,
    {
        Face { vertices }
    }

    pub fn vertices(&self) -> (r: &Vec<Point3>)
        ensures
            r@ == self.vertices@,
    {
        &self.vertices
    }
}

/// Every index list addresses an existing vertex and lists at least three.
pub open spec fn indexes_ok(face_indexes: Seq<Seq<usize>>, n_vertices: int) -> bool {
    forall|i: int|
        0 <= i < face_indexes.len() ==> {
            &&& (#[trigger] face_indexes[i]).len() >= 3
            &&& forall|j: int|
                0 <= j < face_indexes[i].len() ==> (#[trigger] face_indexes[i][j]) < n_vertices
        }
}

/// All coordinates of all vertices bounded in magnitude.
pub open spec fn vertices_bounded(vertices: Seq<Point3>, bound: int) -> bool {
    forall|i: int| 0 <= i < vertices.len() ==> #[trigger] bounded3(vertices[i], bound)
}

/// The faces are exactly the vertex positions addressed by the index lists.
pub open spec fn faces_match(
    faces: Seq<Face>,
    face_indexes: Seq<Seq<usize>>,
    vertices: Seq<Point3>,
) -> bool {
    &&& faces.len() == face_indexes.len()
    &&& forall|i: int|
        0 <= i < faces.len() ==> {
            &&& (#[trigger] faces[i]).vertices@.len() == face_indexes[i].len()
            &&& forall|j: int|
                0 <= j < face_indexes[i].len() ==> (#[trigger] faces[i].vertices@[j]) == vertices[
                    face_indexes[i][j] as int
                ]
        }
}

/// Materializes faces by copying vertex positions through the index lists.
pub fn map_faces(face_indexes: &Vec<Vec<usize>>, vertices: &Vec<Point3>) -> (r: Vec<Face>)
    requires
        indexes_ok(face_indexes@.map_values(|v: Vec<usize>| v@), vertices@.len() as int),
    ensures
        faces_match(r@, face_indexes@.map_values(|v: Vec<usize>| v@), vertices@),
{
    let ghost gidx = face_indexes@.map_values(|v: Vec<usize>| v@);
    let n = face_indexes.len();
    let mut r: Vec<Face> = Vec::new();
    let mut i: usize = 0;
    while i < n
        invariant
            n == face_indexes@.len(),
            gidx == face_indexes@.map_values(|v: Vec<usize>| v@),
            indexes_ok(gidx, vertices@.len() as int),
            i <= n,
            r@.len() == i,
            faces_match(r@, gidx.take(i as int), vertices@),
        decreases n - i,
    {
        let idx = &face_indexes[i];
        let m = idx.len();
        let mut verts: Vec<Point3> = Vec::new();
        let mut j: usize = 0;
        proof {
            assert(gidx[i as int] == idx@);
        }
        while j < m
            invariant
                m == idx@.len(),
                gidx[i as int] == idx@,
                0 <= i < gidx.len(),
                indexes_ok(gidx, vertices@.len() as int),
                j <= m,
                verts@.len() == j,
                forall|k: int| 0 <= k < j ==> (#[trigger] verts@[k]) == vertices@[idx@[k] as int],
            decreases m - j,
        {
            proof {
                assert(gidx[i as int][j as int] < vertices@.len());
            }
            verts.push(vertices[idx[j]]);
            j += 1;
        }
        r.push(Face { vertices: verts });
        proof {
            assert(gidx.take(i + 1 as int) =~= gidx.take(i as int).push(gidx[i as int]));
        }
        i += 1;
    }
    proof {
        assert(gidx.take(n as int) =~= gidx);
    }
    r
}

/// The least element of a nonempty integer sequence (zero for an empty
/// one, where no element exists).
pub open spec fn seq_min(s: Seq<int>) -> int
    decreases s.len(),
{
    if s.len() == 0 {
        0
    } else if s.len() == 1 {
        s[0]
    } else if s.last() < seq_min(s.drop_last()) {
        s.last()
    } else {
        seq_min(s.drop_last())
    }
}

/// The greatest element of a nonempty integer sequence (zero for an empty
/// one).
pub open spec fn seq_max(s: Seq<int>) -> int
    decreases s.len(),
{
    if s.len() == 0 {
        0
    } else if s.len() == 1 {
        s[0]
    } else if s.last() > seq_max(s.drop_last()) {
        s.last()
    } else {
        seq_max(s.drop_last())
    }
}

/// The `x` coordinates of a vertex sequence, as mathematical integers.
pub open spec fn xs_of(vertices: Seq<Point3>) -> Seq<int> {
    vertices.map_values(|p: Point3| p.x as int)
}

pub open spec fn ys_of(vertices: Seq<Point3>) -> Seq<int> {
    vertices.map_values(|p: Point3| p.y as int)
}

pub open spec fn zs_of(vertices: Seq<Point3>) -> Seq<int> {
    vertices.map_values(|p: Point3| p.z as int)
}

/// The per-axis extent of a vertex sequence: greatest minus least
/// coordinate (zero for an empty mesh).
pub open spec fn size_x(vertices: Seq<Point3>) -> int {
    seq_max(xs_of(vertices)) - seq_min(xs_of(vertices))
}

pub open spec fn size_y(vertices: Seq<Point3>) -> int {
    seq_max(ys_of(vertices)) - seq_min(ys_of(vertices))
}

pub open spec fn size_z(vertices: Seq<Point3>) -> int {
    seq_max(zs_of(vertices)) - seq_min(zs_of(vertices))
}

/// Extending a sequence by one element folds one more step of the
/// minimum and maximum.
proof fn lemma_fold_step(s: Seq<int>, i: int)
    requires
        1 <= i < s.len(),
    ensures
        seq_min(s.take(i + 1)) == (if s[i] < seq_min(s.take(i)) {
            s[i]
        } else {
            seq_min(s.take(i))
        }),
        seq_max(s.take(i + 1)) == (if s[i] > seq_max(s.take(i)) {
            s[i]
        } else {
            seq_max(s.take(i))
        }),
{
    assert(s.take(i + 1).drop_last() =~= s.take(i));
    assert(s.take(i + 1).last() == s[i]);
}

/// The least and greatest coordinate in each axis over all vertices: the
/// true per-axis minimum and maximum, and the zero point for an empty
/// mesh.
pub fn compute_extremes(vertices: &Vec<Point3>) -> (r: (Point3, Point3))
    requires
        vertices_bounded(vertices@, MESH_BOUND as int),
    ensures
        bounded3(r.0, MESH_BOUND as int),
        bounded3(r.1, MESH_BOUND as int),
        r.0.x as int == seq_min(xs_of(vertices@)),
        r.0.y as int == seq_min(ys_of(vertices@)),
        r.0.z as int == seq_min(zs_of(vertices@)),
        r.1.x as int == seq_max(xs_of(vertices@)),
        r.1.y as int == seq_max(ys_of(vertices@)),
        r.1.z as int == seq_max(zs_of(vertices@)),
        forall|i: int|
            0 <= i < vertices@.len() ==> {
                &&& r.0.x <= (#[trigger] vertices@[i]).x <= r.1.x
                &&& r.0.y <= vertices@[i].y <= r.1.y
                &&& r.0.z <= vertices@[i].z <= r.1.z
            },
{
    let ghost gxs = xs_of(vertices@);
    let ghost gys = ys_of(vertices@);
    let ghost gzs = zs_of(vertices@);
    let n = vertices.len();
    if n == 0 {
        return (Point3 { x: 0, y: 0, z: 0 }, Point3 { x: 0, y: 0, z: 0 });
    }
    proof {
        assert(bounded3(vertices@[0], MESH_BOUND as int));
        assert(gxs.take(1) =~= seq![gxs[0]]);
        assert(gys.take(1) =~= seq![gys[0]]);
        assert(gzs.take(1) =~= seq![gzs[0]]);
    }
    let first = vertices[0];
    let mut min_x: i64 = first.x;
    let mut max_x: i64 = first.x;
    let mut min_y: i64 = first.y;
    let mut max_y: i64 = first.y;
    let mut min_z: i64 = first.z;
    let mut max_z: i64 = first.z;
    let mut i: usize = 1;
    while i < n
        invariant
            n == vertices@.len(),
            gxs == xs_of(vertices@),
            gys == ys_of(vertices@),
            gzs == zs_of(vertices@),
            vertices_bounded(vertices@, MESH_BOUND as int),
            1 <= i <= n,
            min_x as int == seq_min(gxs.take(i as int)),
            max_x as int == seq_max(gxs.take(i as int)),
            min_y as int == seq_min(gys.take(i as int)),
            max_y as int == seq_max(gys.take(i as int)),
            min_z as int == seq_min(gzs.take(i as int)),
            max_z as int == seq_max(gzs.take(i as int)),
            abs_int(min_x as int) <= MESH_BOUND as int,
            abs_int(max_x as int) <= MESH_BOUND as int,
            abs_int(min_y as int) <= MESH_BOUND as int,
            abs_int(max_y as int) <= MESH_BOUND as int,
            abs_int(min_z as int) <= MESH_BOUND as int,
            abs_int(max_z as int) <= MESH_BOUND as int,
            forall|k: int|
                0 <= k < i ==> {
                    &&& min_x <= (#[trigger] vertices@[k]).x <= max_x
                    &&& min_y <= vertices@[k].y <= max_y
                    &&& min_z <= vertices@[k].z <= max_z
                },
        decreases n - i,
    {
        let v = &vertices[i];
        proof {
            assert(bounded3(vertices@[i as int], MESH_BOUND as int));
            lemma_fold_step(gxs, i as int);
            lemma_fold_step(gys, i as int);
            lemma_fold_step(gzs, i as int);
        }
        if v.x < min_x {
            min_x = v.x;
        }
        if v.x > max_x {
            max_x = v.x;
        }
        if v.y < min_y {
            min_y = v.y;
        }
        if v.y > max_y {
            max_y = v.y;
        }
        if v.z < min_z {
            min_z = v.z;
        }
        if v.z > max_z {
            max_z = v.z;
        }
        i += 1;
    }
    proof {
        assert(gxs.take(n as int) =~= gxs);
        assert(gys.take(n as int) =~= gys);
        assert(gzs.take(n as int) =~= gzs);
    }
    (Point3 { x: min_x, y: min_y, z: min_z }, Point3 { x: max_x, y: max_y, z: max_z })
}

/// The axis-aligned bounding size: the exact per-axis extent of the
/// vertices, greatest minus least coordinate.
pub fn compute_size(vertices: &Vec<Point3>) -> (r: (i64, i64, i64))
    requires
        vertices_bounded(vertices@, MESH_BOUND as int),
    ensures
        r.0 as int == size_x(vertices@),
        r.1 as int == size_y(vertices@),
        r.2 as int == size_z(vertices@),
        r.0 >= 0,
        r.1 >= 0,
        r.2 >= 0,
{
    let (lo, hi) = compute_extremes(vertices);
    proof {
        if vertices@.len() == 0 {
        } else {
            assert(lo.x <= vertices@[0].x <= hi.x);
        }
    }
    (hi.x - lo.x, hi.y - lo.y, hi.z - lo.z)
}

/// The center of the bounding box: the truncated midpoint of the per-axis
/// extremes.
pub fn compute_center(vertices: &Vec<Point3>) -> (r: Point3)
    requires
        vertices_bounded(vertices@, MESH_BOUND as int),
    ensures
        r.x as int == tdiv(seq_min(xs_of(vertices@)) + seq_max(xs_of(vertices@)), 2),
        r.y as int == tdiv(seq_min(ys_of(vertices@)) + seq_max(ys_of(vertices@)), 2),
        r.z as int == tdiv(seq_min(zs_of(vertices@)) + seq_max(zs_of(vertices@)), 2),
        bounded3(r, MESH_BOUND as int),
{
    let (lo, hi) = compute_extremes(vertices);
    proof {
        crate::fixed::lemma_tdiv_abs(lo.x + hi.x, 2, 2 * MESH_BOUND as int);
        crate::fixed::lemma_tdiv_abs(lo.y + hi.y, 2, 2 * MESH_BOUND as int);
        crate::fixed::lemma_tdiv_abs(lo.z + hi.z, 2, 2 * MESH_BOUND as int);
    }
    lo.mid(hi)
}

/// Whether scaling every coordinate by `by` stays within the mesh bound.
pub open spec fn scaled_bounded(vertices: Seq<Point3>, by: int, bound: int) -> bool {
    forall|i: int|
        0 <= i < vertices.len() ==> {
            &&& #[trigger] abs_int(fx_mul_spec(vertices[i].x as int, by)) <= bound
            &&& abs_int(fx_mul_spec(vertices[i].y as int, by)) <= bound
            &&& abs_int(fx_mul_spec(vertices[i].z as int, by)) <= bound
        }
}

/// A triangulated mesh: vertices, face index lists, the faces materialized
/// through them, and the bounding size, kept consistent as an invariant.
pub struct Object {
    pub size: (i64, i64, i64),
    pub vertices: Vec<Point3>,
    pub faces: Vec<Face>,
    pub face_indexes: Vec<Vec<usize>>,
}

impl Object {
    /// The mesh invariant: every face index is in range, each face lists at
    /// least three vertices, the materialized faces mirror the index lists,
    /// and all coordinates are bounded.
    pub open spec fn wf(&self) -> bool {
        &&& indexes_ok(self.face_indexes@.map_values(|v: Vec<usize>| v@), self.vertices@.len() as int)
        &&& faces_match(
            self.faces@,
            self.face_indexes@.map_values(|v: Vec<usize>| v@),
            self.vertices@,
        )
        &&& vertices_bounded(self.vertices@, MESH_BOUND as int)
        &&& self.size.0 as int == size_x(self.vertices@)
        &&& self.size.1 as int == size_y(self.vertices@)
        &&& self.size.2 as int == size_z(self.vertices@)
    }

    /// Builds a mesh, materializing its faces and computing its bounding
    /// size. Out-of-range face indexes are a fatal load-time error and are
    /// excluded here; callers validate before constructing.
    pub fn new(vertices: Vec<Point3>, face_indexes: Vec<Vec<usize>>) -> (r: Object)
        requires
            indexes_ok(face_indexes@.map_values(|v: Vec<usize>| v@), vertices@.len() as int),
            vertices_bounded(vertices@, MESH_BOUND as int),
        ensures
            r.wf(),
            r.vertices@ == vertices@,
            r.face_indexes@ == face_indexes@,
    {
        let size = compute_size(&vertices);
        let faces = map_faces(&face_indexes, &vertices);
        Object { size, vertices, faces, face_indexes }
    }

    pub fn vertices(&self) -> (r: &Vec<Point3>)
        ensures
            r@ == self.vertices@,
    {
        &self.vertices
    }

    /// The materialized faces: a pure derived view of the index lists over
    /// the vertices, recomputed whenever the vertices are scaled.
    pub fn faces(&self) -> (r: &Vec<Face>)
        ensures
            r@ == self.faces@,
    {
        &self.faces
    }

    /// Multiplies every vertex by `factor`, then recomputes the bounding
    /// size and the face list. A factor of exactly one leaves the mesh
    /// untouched, bit for bit.
    pub fn scale(&mut self, factor: i64)
        requires
            old(self).wf(),
            scaled_bounded(old(self).vertices@, factor as int, MESH_BOUND as int),
        ensures
            final(self).wf(),
            factor == FX_ONE ==> *final(self) == *old(self),
            final(self).face_indexes@ == old(self).face_indexes@,
            final(self).vertices@.len() == old(self).vertices@.len(),
            factor != FX_ONE ==> forall|i: int|
                0 <= i < old(self).vertices@.len() ==> {
                    &&& (#[trigger] final(self).vertices@[i]).x as int == fx_mul_spec(
                        old(self).vertices@[i].x as int,
                        factor as int,
                    )
                    &&& final(self).vertices@[i].y as int == fx_mul_spec(
                        old(self).vertices@[i].y as int,
                        factor as int,
                    )
                    &&& final(self).vertices@[i].z as int == fx_mul_spec(
                        old(self).vertices@[i].z as int,
                        factor as int,
                    )
                },
    {
        if factor == FX_ONE {
            return ;
        }
        let n = self.vertices.len();
        let mut i: usize = 0;
        while i < n
            invariant
                n == self.vertices@.len(),
                n == old(self).vertices@.len(),
                self.face_indexes@ == old(self).face_indexes@,
                self.faces@ == old(self).faces@,
                self.size == old(self).size,
                vertices_bounded(old(self).vertices@, MESH_BOUND as int),
                scaled_bounded(old(self).vertices@, factor as int, MESH_BOUND as int),
                i <= n,
                forall|k: int| i <= k < n ==> (#[trigger] self.vertices@[k]) == old(self).vertices@[k],
                forall|k: int|
                    0 <= k < i ==> {
                        &&& ((#[trigger] self.vertices@[k]).x as int) == fx_mul_spec(
                            old(self).vertices@[k].x as int,
                            factor as int,
                        )
                        &&& (self.vertices@[k].y as int) == fx_mul_spec(
                            old(self).vertices@[k].y as int,
                            factor as int,
                        )
                        &&& (self.vertices@[k].z as int) == fx_mul_spec(
                            old(self).vertices@[k].z as int,
                            factor as int,
                        )
                    },
            decreases n - i,
        {
            proof {
                assert(self.vertices@[i as int] == old(self).vertices@[i as int]);
                assert(bounded3(old(self).vertices@[i as int], MESH_BOUND as int));
                assert(abs_int(
                    fx_mul_spec(old(self).vertices@[i as int].x as int, factor as int),
                ) <= MESH_BOUND as int);
            }
            let v = self.vertices[i];
            let scaled = Point3 {
                x: crate::fixed::fx_mul(v.x, factor),
                y: crate::fixed::fx_mul(v.y, factor),
                z: crate::fixed::fx_mul(v.z, factor),
            };
            self.vertices[i] = scaled;
            i += 1;
        }
        proof {
            assert forall|k: int| 0 <= k < self.vertices@.len() implies bounded3(
                #[trigger] self.vertices@[k],
                MESH_BOUND as int,
            ) by {
                assert(abs_int(
                    fx_mul_spec(old(self).vertices@[k].x as int, factor as int),
                ) <= MESH_BOUND as int);
            }
        }
        self.size = compute_size(&self.vertices);
        self.faces = map_faces(&self.face_indexes, &self.vertices);
    }

    /// The largest bounding dimension of this mesh.
    pub open spec fn largest_dimension(&self) -> int {
        let sx = self.size.0 as int;
        let sy = self.size.1 as int;
        let sz = self.size.2 as int;
        if sx >= sy && sx >= sz {
            sx
        } else if sy >= sz {
            sy
        } else {
            sz
        }
    }

    /// Scales the mesh uniformly so that its largest bounding dimension
    /// becomes `target`: the scale factor is the fixed-point quotient of
    /// `target` by the largest dimension. A flat mesh (all dimensions zero)
    /// has nothing to normalize and is excluded; the factor must keep every
    /// coordinate within the mesh bound.
    pub fn normalize_size(&mut self, target: i64)
        requires
            old(self).wf(),
            old(self).largest_dimension() > 0,
            fits_i64(fx_div_spec(target as int, old(self).largest_dimension())),
            scaled_bounded(
                old(self).vertices@,
                fx_div_spec(target as int, old(self).largest_dimension()),
                MESH_BOUND as int,
            ),
        ensures
            final(self).wf(),
            final(self).face_indexes@ == old(self).face_indexes@,
            final(self).vertices@.len() == old(self).vertices@.len(),
            ({
                let f = fx_div_spec(target as int, old(self).largest_dimension());
                f != FX_ONE ==> forall|i: int|
                    0 <= i < old(self).vertices@.len() ==> {
                        &&& (#[trigger] final(self).vertices@[i]).x as int == fx_mul_spec(
                            old(self).vertices@[i].x as int,
                            f,
                        )
                        &&& final(self).vertices@[i].y as int == fx_mul_spec(
                            old(self).vertices@[i].y as int,
                            f,
                        )
                        &&& final(self).vertices@[i].z as int == fx_mul_spec(
                            old(self).vertices@[i].z as int,
                            f,
                        )
                    }
            }),
    {
        let sx = self.size.0;
        let sy = self.size.1;
        let sz = self.size.2;
        let largest = if sx >= sy && sx >= sz {
            sx
        } else if sy >= sz {
            sy
        } else {
            sz
        };
        let factor = crate::fixed::fx_div(target, largest);
        self.scale(factor);
    }
}

} // verus!

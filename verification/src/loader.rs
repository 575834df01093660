//! Post-processing of parsed mesh data: interning polygon vertices into a
//! deduplicated vertex buffer with a 16-bit index buffer, index conversion,
//! and pixel buffer unpacking for still-image export.

use vstd::prelude::*;

verus! {

/// A mesh load failure: the mesh must arrive triangulated, and the
/// deduplicated vertex buffer must be addressable by 16-bit indices.
#[derive(Clone, Copy, PartialEq, Eq, Structural, Debug)]
pub enum LoadError {
    Untriangulated,
    TooManyVertices,
}

/// A deduplicated mesh vertex: a position and a normal, as fixed-point
/// coordinate triples.
#[derive(Clone, Copy, Debug)]
pub struct Vertex {
    pub position: [i64; 3],
    pub normal: [i64; 3],
}

/// A face as parsed from a mesh file: position indices, optionally paired
/// with texture and normal indices.
pub enum Polygon {
    P(Vec<usize>),
    PT(Vec<[usize; 2]>),
    PN(Vec<[usize; 2]>),
    PTN(Vec<[usize; 3]>),
}

/// Whether every index that a polygon mentions is in range: position
/// indices below `np`, normal indices below `nn`.
pub open spec fn poly_indices_ok(p: Polygon, np: int, nn: int) -> bool {
    match p {
        Polygon::P(v) => forall|k: int| 0 <= k < v@.len() ==> (#[trigger] v@[k]) < np,
        Polygon::PT(v) => forall|k: int| 0 <= k < v@.len() ==> (#[trigger] v@[k])[0] < np,
        Polygon::PN(v) => forall|k: int|
            0 <= k < v@.len() ==> (#[trigger] v@[k])[0] < np && v@[k][1] < nn,
        Polygon::PTN(v) => forall|k: int|
            0 <= k < v@.len() ==> (#[trigger] v@[k])[0] < np && v@[k][2] < nn,
    }
}

/// Whether a polygon lists exactly three vertices.
pub open spec fn poly_is_triangle(p: Polygon) -> bool {
    match p {
        Polygon::P(v) => v@.len() == 3,
        Polygon::PT(v) => v@.len() == 3,
        Polygon::PN(v) => v@.len() == 3,
        Polygon::PTN(v) => v@.len() == 3,
    }
}

/// The (position index, normal index, has-normal) key of each corner of a
/// polygon, in order. Corners with equal keys are the same vertex.
pub open spec fn poly_keys(p: Polygon) -> Seq<(usize, usize, bool)> {
    match p {
        Polygon::P(v) => v@.map_values(|pi: usize| (pi, 0usize, false)),
        Polygon::PT(v) => v@.map_values(|e: [usize; 2]| (e[0], 0usize, false)),
        Polygon::PN(v) => v@.map_values(|e: [usize; 2]| (e[0], e[1], true)),
        Polygon::PTN(v) => v@.map_values(|e: [usize; 3]| (e[0], e[2], true)),
    }
}

/// The corner keys of a polygon list, flattened in order.
pub open spec fn all_keys(ps: Seq<Polygon>) -> Seq<(usize, usize, bool)>
    decreases ps.len(),
{
    if ps.len() == 0 {
        Seq::empty()
    } else {
        all_keys(ps.drop_last()) + poly_keys(ps.last())
    }
}

/// The distinct keys of a key sequence, in order of first occurrence: the
/// deduplicated vertex list that interning builds.
pub open spec fn first_seen(ks: Seq<(usize, usize, bool)>) -> Seq<(usize, usize, bool)>
    decreases ks.len(),
{
    if ks.len() == 0 {
        Seq::empty()
    } else {
        let d = first_seen(ks.drop_last());
        if d.contains(ks.last()) {
            d
        } else {
            d.push(ks.last())
        }
    }
}

/// Whether every polygon of a list is a triangle.
pub open spec fn all_triangles(ps: Seq<Polygon>) -> bool {
    forall|i: int| 0 <= i < ps.len() ==> poly_is_triangle(#[trigger] ps[i])
}

/// Whether a deduplicated vertex is the one its key names: the position at
/// the key's position index, and the named normal, or zero without one.
pub open spec fn vertex_matches(
    v: Vertex,
    key: (usize, usize, bool),
    positions: Seq<[i64; 3]>,
    normals: Seq<[i64; 3]>,
) -> bool {
    &&& v.position == positions[key.0 as int]
    &&& key.2 ==> v.normal == normals[key.1 as int]
    &&& !key.2 ==> v.normal@ == seq![0i64, 0i64, 0i64]
}

/// Appending keys never drops distinct keys already seen.
proof fn lemma_first_seen_app(ks: Seq<(usize, usize, bool)>, ext: Seq<(usize, usize, bool)>)
    ensures
        first_seen(ks + ext).len() >= first_seen(ks).len(),
    decreases ext.len(),
{
    if ext.len() == 0 {
        assert(ks + ext =~= ks);
    } else {
        lemma_first_seen_app(ks, ext.drop_last());
        assert((ks + ext).drop_last() =~= ks + ext.drop_last());
    }
}

/// The distinct keys of a prefix of the polygon list never outnumber the
/// distinct keys of the whole list.
proof fn lemma_first_seen_prefix_len(ps: Seq<Polygon>, m: int)
    requires
        0 <= m <= ps.len(),
    ensures
        first_seen(all_keys(ps)).len() >= first_seen(all_keys(ps.take(m))).len(),
    decreases ps.len() - m,
{
    if m == ps.len() {
        assert(ps.take(m) =~= ps);
    } else {
        lemma_first_seen_prefix_len(ps, m + 1);
        assert(ps.take(m + 1).drop_last() =~= ps.take(m));
        assert(all_keys(ps.take(m + 1)) == all_keys(ps.take(m)) + poly_keys(ps[m]));
        lemma_first_seen_app(all_keys(ps.take(m)), poly_keys(ps[m]));
    }
}

/// Looks a vertex key up in the interning cache, appending a new vertex on a
/// miss, and returns its 16-bit index; `None` when the vertex buffer is full.
fn intern_vertex(
    vb: &mut Vec<Vertex>,
    keys: &mut Vec<(usize, usize, bool)>,
    pi: usize,
    ni: usize,
    has_normal: bool,
    positions: &Vec<[i64; 3]>,
    normals: &Vec<[i64; 3]>,
) -> (r: Option<u16>)
    requires
        pi < positions@.len(),
        has_normal ==> ni < normals@.len(),
        old(vb)@.len() == old(keys)@.len(),
        old(vb)@.len() <= 65536,
    ensures
        final(vb)@.len() == final(keys)@.len() <= 65536,
        ({
            let key = (pi, ni, has_normal);
            if old(keys)@.contains(key) {
                &&& final(vb)@ == old(vb)@
                &&& final(keys)@ == old(keys)@
                &&& (r matches Some(ix) && (ix as int) < old(keys)@.len() && old(keys)@[
                    ix as int
                ] == key)
            } else if old(keys)@.len() < 65536 {
                &&& final(keys)@ == old(keys)@.push(key)
                &&& final(vb)@.len() == old(vb)@.len() + 1
                &&& final(vb)@.drop_last() == old(vb)@
                &&& vertex_matches(final(vb)@.last(), key, positions@, normals@)
                &&& (r matches Some(ix) && ix as int == old(keys)@.len())
            } else {
                &&& final(vb)@ == old(vb)@
                &&& final(keys)@ == old(keys)@
                &&& r is None
            }
        }),
{
    let ghost key = (pi, ni, has_normal);
    let n = keys.len();
    let mut j: usize = 0;
    while j < n
        invariant
            n == keys@.len(),
            j <= n,
            vb@.len() == keys@.len(),
            vb@.len() <= 65536,
            key == (pi, ni, has_normal),
            forall|jj: int| 0 <= jj < j ==> (#[trigger] keys@[jj]) != key,
        decreases n - j,
    {
        let k = &keys[j];
        if k.0 == pi && k.1 == ni && k.2 == has_normal {
            proof {
                assert(keys@[j as int] == key);
            }
            return Some(j as u16);
        }
        j += 1;
    }
    proof {
        assert(!keys@.contains(key));
    }
    if n == 65536 {
        return None;
    }
    let vertex = if has_normal {
        Vertex { position: positions[pi], normal: normals[ni] }
    } else {
        Vertex { position: positions[pi], normal: [0, 0, 0] }
    };
    vb.push(vertex);
    keys.push((pi, ni, has_normal));
    Some(n as u16)
}

/// Interns the vertices of a triangulated polygon list into a deduplicated
/// vertex buffer and a 16-bit index buffer, three indices per polygon, in
/// polygon order. Equal corner keys reuse one vertex: the vertex buffer is
/// the distinct keys in first-occurrence order, and each index names its
/// corner's key in it. The call succeeds exactly when every polygon is a
/// triangle and at most 65536 distinct corner keys occur; a polygon that is
/// not a triangle fails with `Untriangulated`, an overfull vertex buffer
/// with `TooManyVertices`.
pub fn custom_process(
    positions: Vec<[i64; 3]>,
    normals: Vec<[i64; 3]>,
    polygons: Vec<Polygon>,
) -> (r: Result<(Vec<Vertex>, Vec<u16>), LoadError>)
    requires
        forall|i: int|
            0 <= i < polygons@.len() ==> poly_indices_ok(
                #[trigger] polygons@[i],
                positions@.len() as int,
                normals@.len() as int,
            ),
    ensures
        r is Ok <==> (all_triangles(polygons@) && first_seen(all_keys(polygons@)).len() <= 65536),
        r matches Ok(out) ==> ({
            let ks = all_keys(polygons@);
            let d = first_seen(ks);
            &&& out.1@.len() == ks.len()
            &&& ks.len() == 3 * polygons@.len()
            &&& out.0@.len() == d.len()
            &&& d.len() <= 65536
            &&& forall|j: int|
                0 <= j < ks.len() ==> ((#[trigger] out.1@[j]) as int) < d.len() && d[out.1@[
                    j
                ] as int] == ks[j]
            &&& forall|k: int|
                0 <= k < d.len() ==> vertex_matches(
                    #[trigger] out.0@[k],
                    d[k],
                    positions@,
                    normals@,
                )
        }),
        r == Err::<(Vec<Vertex>, Vec<u16>), LoadError>(LoadError::Untriangulated) ==> !all_triangles(
            polygons@,
        ),
        r == Err::<(Vec<Vertex>, Vec<u16>), LoadError>(LoadError::TooManyVertices) ==> first_seen(
            all_keys(polygons@),
        ).len() > 65536,
{
    let ghost gps = polygons@;
    let mut vb: Vec<Vertex> = Vec::new();
    let mut keys: Vec<(usize, usize, bool)> = Vec::new();
    let mut ib: Vec<u16> = Vec::new();
    let mut i: usize = 0;
    let npoly = polygons.len();
    while i < npoly
        invariant
            npoly == gps.len(),
            gps == polygons@,
            i <= npoly,
            vb@.len() == keys@.len(),
            vb@.len() <= 65536,
            keys@ == first_seen(all_keys(gps.take(i as int))),
            ib@.len() == all_keys(gps.take(i as int)).len(),
            ib@.len() == 3 * i,
            forall|j: int|
                0 <= j < ib@.len() ==> ((#[trigger] ib@[j]) as int) < keys@.len() && keys@[ib@[
                    j
                ] as int] == all_keys(gps.take(i as int))[j],
            forall|k: int|
                0 <= k < keys@.len() ==> vertex_matches(
                    #[trigger] vb@[k],
                    keys@[k],
                    positions@,
                    normals@,
                ),
            forall|k: int| 0 <= k < i ==> poly_is_triangle(#[trigger] gps[k]),
            forall|k: int|
                0 <= k < gps.len() ==> poly_indices_ok(
                    #[trigger] gps[k],
                    positions@.len() as int,
                    normals@.len() as int,
                ),
        decreases npoly - i,
    {
        let c0: (usize, usize, bool);
        let c1: (usize, usize, bool);
        let c2: (usize, usize, bool);
        match &polygons[i] {
            Polygon::P(v) => {
                if v.len() != 3 {
                    proof {
                        lemma_untriangulated(gps, i as int);
                    }
                    return Err(LoadError::Untriangulated);
                }
                c0 = (v[0], 0, false);
                c1 = (v[1], 0, false);
                c2 = (v[2], 0, false);
                proof {
                    assert(poly_keys(gps[i as int]) =~= seq![c0, c1, c2]);
                }
            },
            Polygon::PT(v) => {
                if v.len() != 3 {
                    proof {
                        lemma_untriangulated(gps, i as int);
                    }
                    return Err(LoadError::Untriangulated);
                }
                c0 = (v[0][0], 0, false);
                c1 = (v[1][0], 0, false);
                c2 = (v[2][0], 0, false);
                proof {
                    assert(poly_keys(gps[i as int]) =~= seq![c0, c1, c2]);
                }
            },
            Polygon::PN(v) => {
                if v.len() != 3 {
                    proof {
                        lemma_untriangulated(gps, i as int);
                    }
                    return Err(LoadError::Untriangulated);
                }
                c0 = (v[0][0], v[0][1], true);
                c1 = (v[1][0], v[1][1], true);
                c2 = (v[2][0], v[2][1], true);
                proof {
                    assert(poly_keys(gps[i as int]) =~= seq![c0, c1, c2]);
                }
            },
            Polygon::PTN(v) => {
                if v.len() != 3 {
                    proof {
                        lemma_untriangulated(gps, i as int);
                    }
                    return Err(LoadError::Untriangulated);
                }
                c0 = (v[0][0], v[0][2], true);
                c1 = (v[1][0], v[1][2], true);
                c2 = (v[2][0], v[2][2], true);
                proof {
                    assert(poly_keys(gps[i as int]) =~= seq![c0, c1, c2]);
                }
            },
        }
        proof {
            assert(gps.take(i + 1).drop_last() =~= gps.take(i as int));
            assert(all_keys(gps.take(i + 1)) == all_keys(gps.take(i as int)) + seq![c0, c1, c2]);
        }
        let ghost pre = all_keys(gps.take(i as int));
        let corners: [(usize, usize, bool); 3] = [c0, c1, c2];
        let mut k: usize = 0;
        while k < 3
            invariant
                npoly == gps.len(),
                gps == polygons@,
                0 <= i < npoly,
                corners@ =~= seq![c0, c1, c2],
                pre == all_keys(gps.take(i as int)),
                all_keys(gps.take(i + 1)) == pre + seq![c0, c1, c2],
                poly_indices_ok(gps[i as int], positions@.len() as int, normals@.len() as int),
                poly_keys(gps[i as int]) == seq![c0, c1, c2],
                c0.0 < positions@.len() && (c0.2 ==> c0.1 < normals@.len()),
                c1.0 < positions@.len() && (c1.2 ==> c1.1 < normals@.len()),
                c2.0 < positions@.len() && (c2.2 ==> c2.1 < normals@.len()),
                k <= 3,
                vb@.len() == keys@.len(),
                vb@.len() <= 65536,
                keys@ == first_seen(pre + seq![c0, c1, c2].take(k as int)),
                ib@.len() == pre.len() + k,
                ib@.len() == 3 * i + k,
                forall|j: int|
                    0 <= j < ib@.len() ==> ((#[trigger] ib@[j]) as int) < keys@.len() && keys@[ib@[
                        j
                    ] as int] == (pre + seq![c0, c1, c2].take(k as int))[j],
                forall|kk: int|
                    0 <= kk < keys@.len() ==> vertex_matches(
                        #[trigger] vb@[kk],
                        keys@[kk],
                        positions@,
                        normals@,
                    ),
            decreases 3 - k,
        {
            let ghost done = pre + seq![c0, c1, c2].take(k as int);
            let ghost ckey = corners@[k as int];
            let ghost keys0 = keys@;
            let ghost vb0 = vb@;
            let ghost ib0 = ib@;
            let corner = corners[k];
            proof {
                assert(done.push(ckey) =~= pre + seq![c0, c1, c2].take(k + 1));
                assert(done.push(ckey).drop_last() =~= done);
                assert(done.push(ckey).last() == ckey);
            }
            match intern_vertex(
                &mut vb,
                &mut keys,
                corner.0,
                corner.1,
                corner.2,
                &positions,
                &normals,
            ) {
                Some(ix) => {
                    ib.push(ix);
                    proof {
                        let newdone = pre + seq![c0, c1, c2].take(k + 1);
                        assert(newdone =~= done.push(ckey));
                        assert(keys@ == first_seen(newdone));
                        assert forall|j: int|
                            0 <= j < ib@.len() implies ((#[trigger] ib@[j]) as int) < keys@.len()
                            && keys@[ib@[j] as int] == newdone[j] by {
                            if j < ib0.len() {
                                assert(ib@[j] == ib0[j]);
                                assert(keys@[ib0[j] as int] == keys0[ib0[j] as int]);
                                assert(newdone[j] == done[j]);
                            } else {
                                assert(ib@[j] == ix);
                                assert(newdone[j] == ckey);
                            }
                        }
                        assert forall|kk: int|
                            0 <= kk < keys@.len() implies vertex_matches(
                            #[trigger] vb@[kk],
                            keys@[kk],
                            positions@,
                            normals@,
                        ) by {
                            if kk < keys0.len() {
                                assert(vb@[kk] == vb0[kk]);
                                assert(keys@[kk] == keys0[kk]);
                            } else {
                                assert(vb@[kk] == vb@.last());
                                assert(keys@[kk] == ckey);
                            }
                        }
                    }
                },
                None => {
                    proof {
                        assert(!first_seen(done).contains(ckey));
                        assert(first_seen(done.push(ckey)).len() == 65537);
                        lemma_first_seen_app(done.push(ckey), seq![c0, c1, c2].skip(k + 1));
                        assert(done.push(ckey) + seq![c0, c1, c2].skip(k + 1) =~= pre + seq![
                            c0,
                            c1,
                            c2,
                        ]);
                        assert(first_seen(all_keys(gps.take(i + 1))).len() >= 65537);
                        lemma_first_seen_prefix_len(gps, i + 1);
                    }
                    return Err(LoadError::TooManyVertices);
                },
            }
            k += 1;
        }
        proof {
            assert(seq![c0, c1, c2].take(3) =~= seq![c0, c1, c2]);
        }
        i += 1;
    }
    proof {
        assert(gps.take(npoly as int) =~= gps);
    }
    Ok((vb, ib))
}

/// A polygon that is not a triangle refutes `all_triangles`.
proof fn lemma_untriangulated(ps: Seq<Polygon>, i: int)
    requires
        0 <= i < ps.len(),
        !poly_is_triangle(ps[i]),
    ensures
        !all_triangles(ps),
{
}


/// Whether one polygon's indices are all in range: the run-time check for
/// `poly_indices_ok`.
pub fn poly_in_range(p: &Polygon, n_positions: usize, n_normals: usize) -> (r: bool)
    ensures
        r == poly_indices_ok(*p, n_positions as int, n_normals as int),
{
    match p {
        Polygon::P(v) => {
            let n = v.len();
            let mut i: usize = 0;
            while i < n
                invariant
                    *p matches Polygon::P(w) && w@ == v@,
                    n == v@.len(),
                    i <= n,
                    forall|k: int| 0 <= k < i ==> (#[trigger] v@[k]) < n_positions,
                decreases n - i,
            {
                if v[i] >= n_positions {
                    proof {
                        assert(!(v@[i as int] < n_positions as int));
                        assert(*p matches Polygon::P(w) && w@ == v@);
                        assert(!poly_indices_ok(*p, n_positions as int, n_normals as int));
                    }
                    return false;
                }
                i += 1;
            }
            true
        },
        Polygon::PT(v) => {
            let n = v.len();
            let mut i: usize = 0;
            while i < n
                invariant
                    *p matches Polygon::PT(w) && w@ == v@,
                    n == v@.len(),
                    i <= n,
                    forall|k: int| 0 <= k < i ==> (#[trigger] v@[k])[0] < n_positions,
                decreases n - i,
            {
                if v[i][0] >= n_positions {
                    proof {
                        assert(!((v@[i as int])[0] < n_positions as int));
                        assert(*p matches Polygon::PT(w) && w@ == v@);
                        assert(!poly_indices_ok(*p, n_positions as int, n_normals as int));
                    }
                    return false;
                }
                i += 1;
            }
            true
        },
        Polygon::PN(v) => {
            let n = v.len();
            let mut i: usize = 0;
            while i < n
                invariant
                    *p matches Polygon::PN(w) && w@ == v@,
                    n == v@.len(),
                    i <= n,
                    forall|k: int|
                        0 <= k < i ==> (#[trigger] v@[k])[0] < n_positions && v@[k][1] < n_normals,
                decreases n - i,
            {
                if v[i][0] >= n_positions || v[i][1] >= n_normals {
                    proof {
                        assert(!((v@[i as int])[0] < n_positions as int && (v@[i as int])[1]
                            < n_normals as int));
                        assert(*p matches Polygon::PN(w) && w@ == v@);
                        assert(!poly_indices_ok(*p, n_positions as int, n_normals as int));
                    }
                    return false;
                }
                i += 1;
            }
            true
        },
        Polygon::PTN(v) => {
            let n = v.len();
            let mut i: usize = 0;
            while i < n
                invariant
                    *p matches Polygon::PTN(w) && w@ == v@,
                    n == v@.len(),
                    i <= n,
                    forall|k: int|
                        0 <= k < i ==> (#[trigger] v@[k])[0] < n_positions && v@[k][2] < n_normals,
                decreases n - i,
            {
                if v[i][0] >= n_positions || v[i][2] >= n_normals {
                    proof {
                        assert(!((v@[i as int])[0] < n_positions as int && (v@[i as int])[2]
                            < n_normals as int));
                        assert(*p matches Polygon::PTN(w) && w@ == v@);
                        assert(!poly_indices_ok(*p, n_positions as int, n_normals as int));
                    }
                    return false;
                }
                i += 1;
            }
            true
        },
    }
}

/// Whether every polygon's indices are in range: validates a parsed mesh
/// before interning, so that an out-of-range face index is a load error
/// rather than anything worse.
pub fn polygons_in_range(polygons: &Vec<Polygon>, n_positions: usize, n_normals: usize) -> (r:
    bool)
    ensures
        r == (forall|i: int|
            0 <= i < polygons@.len() ==> poly_indices_ok(
                #[trigger] polygons@[i],
                n_positions as int,
                n_normals as int,
            )),
{
    let n = polygons.len();
    let mut i: usize = 0;
    while i < n
        invariant
            n == polygons@.len(),
            i <= n,
            forall|k: int|
                0 <= k < i ==> poly_indices_ok(
                    #[trigger] polygons@[k],
                    n_positions as int,
                    n_normals as int,
                ),
        decreases n - i,
    {
        if !poly_in_range(&polygons[i], n_positions, n_normals) {
            return false;
        }
        i += 1;
    }
    true
}

/// Converts raw index values to `usize` indices. Mesh files may store
/// indices in any integer width; a negative value cannot index and is
/// excluded.
pub fn conv_vec_to_usize(v: Vec<i64>) -> (r: Vec<usize>)
    requires
        forall|i: int| 0 <= i < v@.len() ==> 0 <= (#[trigger] v@[i]) <= usize::MAX,
    ensures
        r@.len() == v@.len(),
        forall|i: int| 0 <= i < v@.len() ==> (#[trigger] r@[i]) as int == v@[i] as int,
{
    let n = v.len();
    let mut r: Vec<usize> = Vec::new();
    let mut i: usize = 0;
    while i < n
        invariant
            n == v@.len(),
            i <= n,
            r@.len() == i,
            forall|j: int| 0 <= j < v@.len() ==> 0 <= (#[trigger] v@[j]) <= usize::MAX,
            forall|j: int| 0 <= j < i ==> (#[trigger] r@[j]) as int == v@[j] as int,
        decreases n - i,
    {
        r.push(v[i] as usize);
        i += 1;
    }
    r
}

/// Unpacks a packed `0xRRGGBB` pixel buffer into three bytes per pixel, in
/// red, green, blue order, for a standard image encoder.
pub fn rgb8_to_u8_vec(rgb: &Vec<u32>) -> (r: Vec<u8>)
    ensures
        r@.len() == 3 * rgb@.len(),
        forall|i: int|
            0 <= i < rgb@.len() ==> {
                &&& r@[3 * i] == ((#[trigger] rgb@[i] >> 16) & 0xff) as u8
                &&& r@[3 * i + 1] == ((rgb@[i] >> 8) & 0xff) as u8
                &&& r@[3 * i + 2] == (rgb@[i] & 0xff) as u8
            },
{
    let n = rgb.len();
    let mut r: Vec<u8> = Vec::new();
    let mut i: usize = 0;
    while i < n
        invariant
            n == rgb@.len(),
            i <= n,
            r@.len() == 3 * i,
            forall|j: int|
                0 <= j < i ==> {
                    &&& r@[3 * j] == ((#[trigger] rgb@[j] >> 16) & 0xff) as u8
                    &&& r@[3 * j + 1] == ((rgb@[j] >> 8) & 0xff) as u8
                    &&& r@[3 * j + 2] == (rgb@[j] & 0xff) as u8
                },
        decreases n - i,
    {
        let pixel = rgb[i];
        r.push(((pixel >> 16) & 0xff) as u8);
        r.push(((pixel >> 8) & 0xff) as u8);
        r.push((pixel & 0xff) as u8);
        i += 1;
    }
    r
}

} // verus!

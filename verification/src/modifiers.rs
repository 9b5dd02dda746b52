//! Mesh modifiers that change the topology of a [`VertexMesh`]: flipping the orientation,
//! dropping unused vertices and degenerate triangles, welding vertices, and the index
//! bookkeeping of subdivision and extrusion.
//!
//! Where a modifier also needs floating-point geometry (distances, areas, midpoints, face
//! normals), the caller computes those values and hands them in; the functions here decide
//! and rebuild the index structure.

use vstd::prelude::*;
use crate::bytes::FloatBits;
use crate::vertex_mesh::{Vertex, Face, VertexMesh, MeshError, face_in_range, faces_in_range};

verus! {

/// The bit pattern of `-x` for the float with bit pattern `x`: negation flips the sign bit.
pub open spec fn negated(x: FloatBits) -> FloatBits {
    x ^ 0x8000_0000u32
}

/// The normal pointing the other way.
pub open spec fn negated_normal(n: [FloatBits; 3]) -> [FloatBits; 3] {
    [negated(n[0]), negated(n[1]), negated(n[2])]
}

/// The vertex with its normal (if any) reversed.
pub open spec fn flipped_vertex(v: Vertex) -> Vertex {
    Vertex {
        normal: match v.normal {
            Some(n) => Some(negated_normal(n)),
            None => None,
        },
        ..v
    }
}

/// The face with its first and last index swapped (the opposite winding).
pub open spec fn flipped_face(f: Face) -> Face {
    Face { indices: [f.indices[2], f.indices[1], f.indices[0]] }
}

/// Reverses every normal and the winding order of every triangle, so that the surface faces
/// the other way.
pub fn flip_normals(mesh: &mut VertexMesh)
    ensures
        final(mesh).vertices@ == old(mesh).vertices@.map_values(|v: Vertex| flipped_vertex(v)),
        final(mesh).triangles@ == old(mesh).triangles@.map_values(|f: Face| flipped_face(f)),
{
    let ghost vs0 = mesh.vertices@;
    let ghost fs0 = mesh.triangles@;
    let mut i: usize = 0;
    while i < mesh.vertices.len()
        invariant
            i <= mesh.vertices@.len(),
            mesh.vertices@.len() == vs0.len(),
            mesh.triangles@ == fs0,
            forall|j: int| 0 <= j < i ==> mesh.vertices@[j] == flipped_vertex(#[trigger] vs0[j]),
            forall|j: int| i <= j < vs0.len() ==> mesh.vertices@[j] == #[trigger] vs0[j],
        decreases vs0.len() - i,
    {
        let v = mesh.vertices[i];
        let nv = match v.normal {
            Some(n) => Vertex {
                normal: Some([n[0] ^ 0x8000_0000u32, n[1] ^ 0x8000_0000u32, n[2] ^ 0x8000_0000u32]),
                ..v
            },
            None => v,
        };
        assert(nv.normal == flipped_vertex(v).normal);
        mesh.vertices.set(i, nv);
        i = i + 1;
    }
    assert(mesh.vertices@ =~= vs0.map_values(|v: Vertex| flipped_vertex(v)));
    let mut t: usize = 0;
    while t < mesh.triangles.len()
        invariant
            t <= mesh.triangles@.len(),
            mesh.triangles@.len() == fs0.len(),
            mesh.vertices@ == vs0.map_values(|v: Vertex| flipped_vertex(v)),
            forall|j: int| 0 <= j < t ==> mesh.triangles@[j] == flipped_face(#[trigger] fs0[j]),
            forall|j: int| t <= j < fs0.len() ==> mesh.triangles@[j] == #[trigger] fs0[j],
        decreases fs0.len() - t,
    {
        let f = mesh.triangles[t];
        let nf = Face { indices: [f.indices[2], f.indices[1], f.indices[0]] };
        mesh.triangles.set(t, nf);
        t = t + 1;
    }
    assert(mesh.triangles@ =~= fs0.map_values(|f: Face| flipped_face(f)));
}

/// Flipping twice restores the mesh: every vertex and every triangle is what it was.
pub proof fn lemma_flip_normals_twice(vs: Seq<Vertex>, fs: Seq<Face>)
    ensures
        vs.map_values(|v: Vertex| flipped_vertex(v)).map_values(|v: Vertex| flipped_vertex(v)) == vs,
        fs.map_values(|f: Face| flipped_face(f)).map_values(|f: Face| flipped_face(f)) == fs,
{
    broadcast use vstd::array::group_array_axioms;

    assert forall|i: int| 0 <= i < vs.len() implies flipped_vertex(flipped_vertex(#[trigger] vs[i])) == vs[i] by {
        let v = vs[i];
        if let Some(n) = v.normal {
            let a = n[0];
            let b = n[1];
            let c = n[2];
            assert((a ^ 0x8000_0000u32) ^ 0x8000_0000u32 == a) by (bit_vector);
            assert((b ^ 0x8000_0000u32) ^ 0x8000_0000u32 == b) by (bit_vector);
            assert((c ^ 0x8000_0000u32) ^ 0x8000_0000u32 == c) by (bit_vector);
            assert(negated_normal(negated_normal(n)) =~= n);
        }
    }
    assert(vs.map_values(|v: Vertex| flipped_vertex(v)).map_values(|v: Vertex| flipped_vertex(v)) =~= vs);
    assert forall|i: int| 0 <= i < fs.len() implies flipped_face(flipped_face(#[trigger] fs[i])) == fs[i] by {
        assert(flipped_face(flipped_face(fs[i])).indices =~= fs[i].indices);
    }
    assert(fs.map_values(|f: Face| flipped_face(f)).map_values(|f: Face| flipped_face(f)) =~= fs);
}

/// Whether some triangle of `fs` uses vertex `v`.
pub open spec fn is_used(fs: Seq<Face>, v: int) -> bool {
    exists|i: int, k: int| 0 <= i < fs.len() && 0 <= k < 3 && #[trigger] fs[i].indices@[k] == v
}

/// How many of the vertices `0 .. v` some triangle of `fs` uses: the new index of a used
/// vertex `v` once the unused ones are removed.
pub open spec fn used_before(fs: Seq<Face>, v: int) -> int
    decreases v,
{
    if v <= 0 {
        0
    } else {
        used_before(fs, v - 1) + if is_used(fs, v - 1) { 1int } else { 0int }
    }
}

/// The vertices among the first `k` of `vs` that some triangle of `fs` uses, in order.
pub open spec fn used_vertices(vs: Seq<Vertex>, fs: Seq<Face>, k: int) -> Seq<Vertex>
    decreases k,
{
    if k <= 0 {
        Seq::empty()
    } else if is_used(fs, k - 1) {
        used_vertices(vs, fs, k - 1).push(vs[k - 1])
    } else {
        used_vertices(vs, fs, k - 1)
    }
}

/// The face with every index replaced by its new index once the unused vertices are removed.
pub open spec fn renumbered(f: Face, fs: Seq<Face>) -> Face {
    Face {
        indices: [
            used_before(fs, f.indices[0] as int) as usize,
            used_before(fs, f.indices[1] as int) as usize,
            used_before(fs, f.indices[2] as int) as usize,
        ],
    }
}

/// The number of vertices of a mesh of `n` vertices that no triangle of `fs` uses.
pub open spec fn unused_count(fs: Seq<Face>, n: int) -> int {
    n - used_before(fs, n)
}

/// Counting used vertices: the count grows by one at each used vertex and never exceeds
/// the number of vertices looked at.
proof fn lemma_used_before_bounds(fs: Seq<Face>, v: int, w: int)
    requires
        0 <= v <= w,
    ensures
        0 <= used_before(fs, v) <= v,
        used_before(fs, v) <= used_before(fs, w),
        used_before(fs, w) - used_before(fs, v) <= w - v,
        v < w && is_used(fs, v) ==> used_before(fs, v) < used_before(fs, w),
    decreases w,
{
    if w > v {
        lemma_used_before_bounds(fs, v, w - 1);
    } else if v > 0 {
        lemma_used_before_bounds(fs, v - 1, v - 1);
    }
}

/// The used vertices among the first `k` number `used_before(fs, k)`, and the used vertex
/// `v` sits at its new index.
proof fn lemma_used_vertices(vs: Seq<Vertex>, fs: Seq<Face>, k: int, v: int)
    requires
        0 <= k <= vs.len(),
    ensures
        used_vertices(vs, fs, k).len() == used_before(fs, k),
        0 <= v < k && is_used(fs, v) ==> used_vertices(vs, fs, k)[used_before(fs, v)] == vs[v],
    decreases k,
{
    if k > 0 {
        lemma_used_vertices(vs, fs, k - 1, v);
        if 0 <= v <= k - 1 {
            lemma_used_before_bounds(fs, v, k - 1);
        }
    }
}

/// Every new index below the number of used vertices belongs to some used vertex.
proof fn lemma_new_index_has_vertex(fs: Seq<Face>, k: int, j: int)
    requires
        0 <= j < used_before(fs, k),
    ensures
        exists|v: int| 0 <= v < k && is_used(fs, v) && #[trigger] used_before(fs, v) == j,
    decreases k,
{
    if k > 0 {
        if j < used_before(fs, k - 1) {
            lemma_new_index_has_vertex(fs, k - 1, j);
            let v = choose|v: int| 0 <= v < k - 1 && is_used(fs, v) && #[trigger] used_before(fs, v) == j;
            assert(0 <= v < k && is_used(fs, v) && used_before(fs, v) == j);
        } else {
            assert(used_before(fs, k - 1) == j && is_used(fs, k - 1));
        }
    }
}

/// A vertex is used by the first `t + 1` triangles exactly when the first `t` use it or it
/// is a corner of triangle `t`.
proof fn lemma_is_used_step(fs: Seq<Face>, t: int, v: int)
    requires
        0 <= t < fs.len(),
    ensures
        is_used(fs.subrange(0, t + 1), v) <==> (is_used(fs.subrange(0, t), v) || fs[t].indices@[0] == v
            || fs[t].indices@[1] == v || fs[t].indices@[2] == v),
{
    let a = fs.subrange(0, t);
    let b = fs.subrange(0, t + 1);
    if is_used(b, v) {
        let (i, k) = choose|i: int, k: int| 0 <= i < b.len() && 0 <= k < 3 && #[trigger] b[i].indices@[k] == v;
        if i < t {
            assert(a[i].indices@[k] == v);
        } else {
            assert(b[i] == fs[t]);
        }
    }
    if is_used(a, v) {
        let (i, k) = choose|i: int, k: int| 0 <= i < a.len() && 0 <= k < 3 && #[trigger] a[i].indices@[k] == v;
        assert(b[i].indices@[k] == v);
    }
    if fs[t].indices@[0] == v {
        assert(b[t].indices@[0] == v);
    }
    if fs[t].indices@[1] == v {
        assert(b[t].indices@[1] == v);
    }
    if fs[t].indices@[2] == v {
        assert(b[t].indices@[2] == v);
    }
}

/// Removes the vertices that no triangle uses, renumbers the triangles to match, and
/// returns how many vertices were removed. When every vertex is used the mesh is left as it
/// is.
pub fn remove_unused_vertices(mesh: &mut VertexMesh) -> (removed: usize)
    requires
        old(mesh).well_formed() || unused_count(old(mesh).triangles@, old(mesh).vertices@.len() as int) == 0,
    ensures
        removed == unused_count(old(mesh).triangles@, old(mesh).vertices@.len() as int),
        removed == 0 ==> final(mesh).vertices@ == old(mesh).vertices@ && final(mesh).triangles@
            == old(mesh).triangles@,
        removed > 0 ==> final(mesh).vertices@ == used_vertices(
            old(mesh).vertices@,
            old(mesh).triangles@,
            old(mesh).vertices@.len() as int,
        ) && final(mesh).triangles@ == old(mesh).triangles@.map_values(
            |f: Face| renumbered(f, old(mesh).triangles@),
        ),
{
    let ghost vs = mesh.vertices@;
    let ghost fs = mesh.triangles@;
    let n = mesh.vertices.len();
    let mut used: Vec<bool> = Vec::new();
    let mut v: usize = 0;
    while v < n
        invariant
            v <= n,
            used@.len() == v,
            forall|j: int| 0 <= j < v ==> !(#[trigger] used@[j]),
        decreases n - v,
    {
        used.push(false);
        v = v + 1;
    }
    let mut t: usize = 0;
    while t < mesh.triangles.len()
        invariant
            mesh.vertices@ == vs,
            mesh.triangles@ == fs,
            n == vs.len(),
            t <= fs.len(),
            used@.len() == n,
            forall|j: int| 0 <= j < n ==> #[trigger] used@[j] == is_used(fs.subrange(0, t as int), j),
        decreases fs.len() - t,
    {
        let f = mesh.triangles[t];
        if f.indices[0] < n {
            used.set(f.indices[0], true);
        }
        if f.indices[1] < n {
            used.set(f.indices[1], true);
        }
        if f.indices[2] < n {
            used.set(f.indices[2], true);
        }
        proof {
            assert forall|j: int| 0 <= j < n implies #[trigger] used@[j] == is_used(fs.subrange(0, t + 1), j) by {
                lemma_is_used_step(fs, t as int, j);
            }
        }
        t = t + 1;
    }
    assert(fs.subrange(0, t as int) =~= fs);
    let mut unused: usize = 0;
    let mut v: usize = 0;
    while v < n
        invariant
            v <= n,
            n == vs.len(),
            used@.len() == n,
            forall|j: int| 0 <= j < n ==> #[trigger] used@[j] == is_used(fs, j),
            unused == v - used_before(fs, v as int),
        decreases n - v,
    {
        proof {
            lemma_used_before_bounds(fs, v as int, v + 1);
        }
        if !used[v] {
            unused = unused + 1;
        }
        v = v + 1;
    }
    if unused == 0 {
        return 0;
    }
    let mut index_map: Vec<usize> = Vec::new();
    let mut new_vertices: Vec<Vertex> = Vec::new();
    let mut next: usize = 0;
    let mut v: usize = 0;
    while v < n
        invariant
            v <= n,
            n == vs.len(),
            mesh.vertices@ == vs,
            used@.len() == n,
            forall|j: int| 0 <= j < n ==> #[trigger] used@[j] == is_used(fs, j),
            next == used_before(fs, v as int),
            index_map@.len() == v,
            forall|j: int| 0 <= j < v && is_used(fs, j) ==> #[trigger] index_map@[j] == used_before(fs, j),
            new_vertices@ == used_vertices(vs, fs, v as int),
        decreases n - v,
    {
        proof {
            lemma_used_before_bounds(fs, v as int, v as int);
        }
        if used[v] {
            index_map.push(next);
            new_vertices.push(mesh.vertices[v]);
            next = next + 1;
        } else {
            index_map.push(0);
        }
        v = v + 1;
    }
    let mut t: usize = 0;
    while t < mesh.triangles.len()
        invariant
            t <= fs.len(),
            n == vs.len(),
            faces_in_range(fs, n as int),
            mesh.triangles@.len() == fs.len(),
            index_map@.len() == n,
            forall|j: int| 0 <= j < n && is_used(fs, j) ==> #[trigger] index_map@[j] == used_before(fs, j),
            forall|j: int| 0 <= j < t ==> mesh.triangles@[j] == renumbered(#[trigger] fs[j], fs),
            forall|j: int| t <= j < fs.len() ==> mesh.triangles@[j] == #[trigger] fs[j],
        decreases fs.len() - t,
    {
        let f = mesh.triangles[t];
        assert(face_in_range(fs[t as int], n as int));
        proof {
            assert(fs[t as int].indices@[0] == f.indices[0]);
            assert(fs[t as int].indices@[1] == f.indices[1]);
            assert(fs[t as int].indices@[2] == f.indices[2]);
            assert(is_used(fs, f.indices[0] as int));
            assert(is_used(fs, f.indices[1] as int));
            assert(is_used(fs, f.indices[2] as int));
        }
        let nf = Face { indices: [index_map[f.indices[0]], index_map[f.indices[1]], index_map[f.indices[2]]] };
        assert(nf == renumbered(fs[t as int], fs));
        mesh.triangles.set(t, nf);
        t = t + 1;
    }
    assert(mesh.triangles@ =~= fs.map_values(|f: Face| renumbered(f, fs)));
    mesh.vertices = new_vertices;
    unused
}

/// When every vertex is used, the renumbering changes nothing: the used vertices are all the
/// vertices and every index keeps its value.
proof fn lemma_all_used_identity(vs: Seq<Vertex>, fs: Seq<Face>, k: int)
    requires
        0 <= k <= vs.len(),
        forall|v: int| 0 <= v < vs.len() ==> is_used(fs, v),
    ensures
        used_before(fs, k) == k,
        used_vertices(vs, fs, k) == vs.subrange(0, k),
    decreases k,
{
    if k > 0 {
        lemma_all_used_identity(vs, fs, k - 1);
        assert(used_vertices(vs, fs, k) =~= vs.subrange(0, k));
    } else {
        assert(used_vertices(vs, fs, k) =~= vs.subrange(0, k));
    }
}

/// Removing the unused vertices of a well-formed mesh (vertices `vs`, triangles `fs`) gives a
/// well-formed mesh in which every vertex is used, with as many fewer vertices as were
/// unused, and every corner of every triangle still refers to the same vertex data. When no
/// vertex was unused, the result is the mesh itself.
pub proof fn lemma_remove_unused_vertices(vs: Seq<Vertex>, fs: Seq<Face>)
    requires
        faces_in_range(fs, vs.len() as int),
    ensures
        ({
            let nvs = used_vertices(vs, fs, vs.len() as int);
            let nfs = fs.map_values(|f: Face| renumbered(f, fs));
            &&& nvs.len() == vs.len() - unused_count(fs, vs.len() as int)
            &&& nfs.len() == fs.len()
            &&& faces_in_range(nfs, nvs.len() as int)
            &&& forall|j: int| 0 <= j < nvs.len() ==> #[trigger] is_used(nfs, j)
            &&& forall|i: int, k: int|
                0 <= i < fs.len() && 0 <= k < 3 ==> nvs[#[trigger] nfs[i].indices@[k] as int]
                    == vs[fs[i].indices@[k] as int]
            &&& unused_count(fs, vs.len() as int) == 0 ==> nvs == vs && nfs == fs
        }),
{
    let n = vs.len() as int;
    let nvs = used_vertices(vs, fs, n);
    let nfs = fs.map_values(|f: Face| renumbered(f, fs));
    lemma_used_vertices(vs, fs, n, 0);
    lemma_used_before_bounds(fs, n, n);
    assert forall|i: int, k: int| 0 <= i < fs.len() && 0 <= k < 3 implies {
        &&& (#[trigger] nfs[i].indices@[k]) as int == used_before(fs, fs[i].indices@[k] as int)
        &&& nfs[i].indices@[k] < nvs.len()
        &&& nvs[nfs[i].indices@[k] as int] == vs[fs[i].indices@[k] as int]
    } by {
        let idx = fs[i].indices@[k] as int;
        assert(face_in_range(fs[i], n));
        assert(0 <= idx < n);
        assert(is_used(fs, idx));
        lemma_used_before_bounds(fs, idx, n);
        lemma_used_vertices(vs, fs, n, idx);
        assert(nfs[i] == renumbered(fs[i], fs));
    }
    assert forall|i: int| 0 <= i < nfs.len() implies #[trigger] face_in_range(nfs[i], nvs.len() as int) by {
        assert(nfs[i].indices@[0] < nvs.len());
        assert(nfs[i].indices@[1] < nvs.len());
        assert(nfs[i].indices@[2] < nvs.len());
    }
    assert forall|j: int| 0 <= j < nvs.len() implies #[trigger] is_used(nfs, j) by {
        lemma_new_index_has_vertex(fs, n, j);
        let v = choose|v: int| 0 <= v < n && is_used(fs, v) && #[trigger] used_before(fs, v) == j;
        let (i, k) = choose|i: int, k: int| 0 <= i < fs.len() && 0 <= k < 3 && #[trigger] fs[i].indices@[k] == v;
        assert(nfs[i].indices@[k] == j);
    }
    if unused_count(fs, n) == 0 {
        assert forall|v: int| 0 <= v < n implies is_used(fs, v) by {
            if !is_used(fs, v) {
                lemma_used_before_bounds(fs, v, v + 1);
                lemma_used_before_bounds(fs, v + 1, n);
            }
        }
        lemma_all_used_identity(vs, fs, n);
        assert(vs.subrange(0, n) =~= vs);
        assert forall|i: int| 0 <= i < fs.len() implies #[trigger] nfs[i] == fs[i] by {
            let f = fs[i];
            assert(face_in_range(f, n));
            lemma_all_used_identity(vs, fs, f.indices@[0] as int);
            lemma_all_used_identity(vs, fs, f.indices@[1] as int);
            lemma_all_used_identity(vs, fs, f.indices@[2] as int);
            assert(nfs[i].indices =~= f.indices);
        }
        assert(nfs =~= fs);
    }
}

/// The three indices of `f` are pairwise different.
pub open spec fn has_distinct_corners(f: Face) -> bool {
    &&& f.indices[0] != f.indices[1]
    &&& f.indices[1] != f.indices[2]
    &&& f.indices[0] != f.indices[2]
}

/// Whether triangle `i` of `fs` stays: its corners are distinct and `has_area` says that it
/// encloses an area.
pub open spec fn is_kept(fs: Seq<Face>, has_area: Seq<bool>, i: int) -> bool {
    has_distinct_corners(fs[i]) && has_area[i]
}

/// The triangles among the first `k` of `fs` that stay, in order.
pub open spec fn kept_faces(fs: Seq<Face>, has_area: Seq<bool>, k: int) -> Seq<Face>
    decreases k,
{
    if k <= 0 {
        Seq::empty()
    } else if is_kept(fs, has_area, k - 1) {
        kept_faces(fs, has_area, k - 1).push(fs[k - 1])
    } else {
        kept_faces(fs, has_area, k - 1)
    }
}

/// Removes the degenerate triangles, those with a repeated index or without area, keeping
/// the others in order, and returns how many were removed.
///
/// `has_area[i]` tells whether triangle `i` encloses an area: whether the squared length of
/// the cross product of its edges `b - a` and `c - a` exceeds 1e-10. The caller computes it
/// from the vertex positions; it is read only for triangles with distinct corners.
pub fn remove_degenerate_triangles(mesh: &mut VertexMesh, has_area: &[bool]) -> (removed: usize)
    requires
        has_area@.len() == old(mesh).triangles@.len(),
    ensures
        final(mesh).vertices@ == old(mesh).vertices@,
        final(mesh).triangles@ == kept_faces(old(mesh).triangles@, has_area@, old(mesh).triangles@.len() as int),
        removed == old(mesh).triangles@.len() - final(mesh).triangles@.len(),
{
    let ghost fs = mesh.triangles@;
    let mut kept: Vec<Face> = Vec::new();
    let mut t: usize = 0;
    while t < mesh.triangles.len()
        invariant
            t <= fs.len(),
            mesh.triangles@ == fs,
            has_area@.len() == fs.len(),
            kept@ == kept_faces(fs, has_area@, t as int),
            kept@.len() <= t,
        decreases fs.len() - t,
    {
        let f = mesh.triangles[t];
        let a = f.indices[0];
        let b = f.indices[1];
        let c = f.indices[2];
        if a != b && b != c && a != c && has_area[t] {
            kept.push(f);
        }
        t = t + 1;
    }
    let removed = mesh.triangles.len() - kept.len();
    mesh.triangles = kept;
    removed
}

/// After removing degenerate triangles every remaining triangle has three distinct corners
/// and was a triangle of the mesh, and the removed and remaining ones add up to the original
/// count.
pub proof fn lemma_remove_degenerate_triangles(fs: Seq<Face>, has_area: Seq<bool>)
    requires
        has_area.len() == fs.len(),
    ensures
        forall|j: int|
            0 <= j < kept_faces(fs, has_area, fs.len() as int).len() ==> has_distinct_corners(
                #[trigger] kept_faces(fs, has_area, fs.len() as int)[j],
            ) && fs.contains(kept_faces(fs, has_area, fs.len() as int)[j]),
        kept_faces(fs, has_area, fs.len() as int).len() <= fs.len(),
{
    lemma_kept_faces(fs, has_area, fs.len() as int);
}

proof fn lemma_kept_faces(fs: Seq<Face>, has_area: Seq<bool>, k: int)
    requires
        0 <= k <= fs.len(),
        has_area.len() == fs.len(),
    ensures
        kept_faces(fs, has_area, k).len() <= k,
        forall|j: int|
            0 <= j < kept_faces(fs, has_area, k).len() ==> has_distinct_corners(
                #[trigger] kept_faces(fs, has_area, k)[j],
            ) && fs.contains(kept_faces(fs, has_area, k)[j]),
    decreases k,
{
    if k > 0 {
        lemma_kept_faces(fs, has_area, k - 1);
        let prev = kept_faces(fs, has_area, k - 1);
        let cur = kept_faces(fs, has_area, k);
        assert forall|j: int| 0 <= j < cur.len() implies has_distinct_corners(#[trigger] cur[j]) && fs.contains(cur[j]) by {
            if j < prev.len() {
                assert(cur[j] == prev[j]);
            } else {
                assert(cur[j] == fs[k - 1]);
                assert(fs[k - 1] == fs[k - 1]);
            }
        }
    }
}

/// The position of the first kept vertex among `reps[0 .. k]` that `row` marks as close
/// (`row[r]` for kept vertex `r`), or `k` when there is none.
pub open spec fn first_close(row: Seq<bool>, reps: Seq<usize>, k: int) -> int
    decreases k,
{
    if k <= 0 {
        0
    } else {
        let f = first_close(row, reps, k - 1);
        if f < k - 1 {
            f
        } else if row[reps[k - 1] as int] {
            k - 1
        } else {
            k
        }
    }
}

/// The vertices kept by welding the first `k` vertices: a vertex is kept unless it is close
/// to a vertex kept before it. `close[i][j]` (for `j < i`) says whether vertex `i` may be
/// welded onto vertex `j`.
pub open spec fn weld_reps(close: Seq<Seq<bool>>, k: int) -> Seq<usize>
    decreases k,
{
    if k <= 0 {
        Seq::empty()
    } else {
        let r = weld_reps(close, k - 1);
        if first_close(close[k - 1], r, r.len() as int) < r.len() {
            r
        } else {
            r.push((k - 1) as usize)
        }
    }
}

/// The new index of vertex `i` after welding: that of the first earlier kept vertex it is
/// close to, or its own new index when it is kept.
pub open spec fn weld_target(close: Seq<Seq<bool>>, i: int) -> int {
    first_close(close[i], weld_reps(close, i), weld_reps(close, i).len() as int)
}

/// The face with its first `k` corners replaced by their indices after welding.
pub open spec fn weld_face_prefix(f: Face, close: Seq<Seq<bool>>, k: int) -> Face {
    Face {
        indices: [
            if k > 0 { weld_target(close, f.indices[0] as int) as usize } else { f.indices[0] },
            if k > 1 { weld_target(close, f.indices[1] as int) as usize } else { f.indices[1] },
            if k > 2 { weld_target(close, f.indices[2] as int) as usize } else { f.indices[2] },
        ],
    }
}

/// The face with every corner replaced by its index after welding.
pub open spec fn welded_face(f: Face, close: Seq<Seq<bool>>) -> Face {
    weld_face_prefix(f, close, 3)
}

/// How welding left the triangles `after` of a mesh with `n` vertices and triangles `fs` when
/// it stopped at corner `k` of triangle `t`, which holds the index `bad` that names no
/// vertex: the triangles before `t` are renumbered, the first `k` corners of `t` too, and the
/// rest is unchanged.
pub open spec fn weld_stopped_at(
    fs: Seq<Face>,
    after: Seq<Face>,
    close: Seq<Seq<bool>>,
    n: int,
    t: int,
    k: int,
    bad: usize,
) -> bool {
    &&& 0 <= t < fs.len()
    &&& 0 <= k < 3
    &&& fs[t].indices@[k] == bad
    &&& bad >= n
    &&& forall|j: int| 0 <= j < t ==> #[trigger] face_in_range(fs[j], n)
    &&& forall|j: int| 0 <= j < k ==> fs[t].indices@[j] < n
    &&& after.len() == fs.len()
    &&& forall|j: int| 0 <= j < t ==> #[trigger] after[j] == welded_face(fs[j], close)
    &&& after[t] == weld_face_prefix(fs[t], close, k)
    &&& forall|j: int| t < j < fs.len() ==> #[trigger] after[j] == fs[j]
}

/// The first corner, in triangle order and then corner order, among the first `m` triangles
/// of `fs` whose index names none of the `n` vertices.
pub open spec fn first_bad_corner(fs: Seq<Face>, n: int, m: int) -> Option<(int, int)>
    decreases m,
{
    if m <= 0 {
        None
    } else {
        let prev = first_bad_corner(fs, n, m - 1);
        if prev is Some {
            prev
        } else if fs[m - 1].indices@[0] >= n {
            Some((m - 1, 0int))
        } else if fs[m - 1].indices@[1] >= n {
            Some((m - 1, 1int))
        } else if fs[m - 1].indices@[2] >= n {
            Some((m - 1, 2int))
        } else {
            None
        }
    }
}

/// There is no bad corner among the first `m` triangles exactly when they are all in range,
/// and a bad corner found stays the first one as more triangles are looked at.
proof fn lemma_first_bad_corner(fs: Seq<Face>, n: int, m: int, w: int)
    requires
        0 <= m <= w <= fs.len(),
    ensures
        first_bad_corner(fs, n, m) is None <==> forall|j: int| 0 <= j < m ==> #[trigger] face_in_range(fs[j], n),
        first_bad_corner(fs, n, m) is Some ==> first_bad_corner(fs, n, w) == first_bad_corner(fs, n, m),
    decreases w,
{
    if w > m {
        lemma_first_bad_corner(fs, n, m, w - 1);
    } else if m > 0 {
        lemma_first_bad_corner(fs, n, m - 1, m - 1);
        if first_bad_corner(fs, n, m) is None {
            assert forall|j: int| 0 <= j < m implies #[trigger] face_in_range(fs[j], n) by {
                if j < m - 1 {
                    assert(face_in_range(fs[j], n));
                }
            }
        } else if first_bad_corner(fs, n, m - 1) is None {
            assert(!face_in_range(fs[m - 1], n));
        } else {
            let j = choose|j: int| 0 <= j < m - 1 && !#[trigger] face_in_range(fs[j], n);
            assert(!face_in_range(fs[j], n));
        }
    }
}

/// The rows of a closeness table.
pub open spec fn rows_of(close: Seq<Vec<bool>>) -> Seq<Seq<bool>> {
    close.map_values(|row: Vec<bool>| row@)
}

/// `close` gives, for each of the `n` vertices, closeness to every earlier vertex.
pub open spec fn closeness_complete(close: Seq<Seq<bool>>, n: int) -> bool {
    &&& close.len() == n
    &&& forall|i: int| 0 <= i < n ==> (#[trigger] close[i]).len() >= i
}

/// The search result is at most `k`, a hit is close, and no earlier kept vertex is.
proof fn lemma_first_close(row: Seq<bool>, reps: Seq<usize>, k: int)
    requires
        0 <= k <= reps.len(),
    ensures
        0 <= first_close(row, reps, k) <= k,
        first_close(row, reps, k) < k ==> row[reps[first_close(row, reps, k)] as int],
        forall|j: int| 0 <= j < first_close(row, reps, k) ==> !row[#[trigger] reps[j] as int],
    decreases k,
{
    if k > 0 {
        lemma_first_close(row, reps, k - 1);
    }
}

/// The kept vertices come in increasing order, all below `k`, and every new index of the
/// first `k` vertices names a kept vertex that is the vertex itself or an earlier vertex it
/// is close to.
proof fn lemma_weld_reps(close: Seq<Seq<bool>>, k: int)
    requires
        0 <= k <= close.len(),
        k <= usize::MAX,
        forall|i: int| 0 <= i < close.len() ==> (#[trigger] close[i]).len() >= i,
    ensures
        weld_reps(close, k).len() <= k,
        forall|a: int, b: int|
            0 <= a < b < weld_reps(close, k).len() ==> weld_reps(close, k)[a] < weld_reps(close, k)[b],
        forall|a: int| 0 <= a < weld_reps(close, k).len() ==> weld_reps(close, k)[a] < k,
        forall|i: int|
            0 <= i < k ==> {
                let t = #[trigger] weld_target(close, i);
                &&& 0 <= t < weld_reps(close, k).len()
                &&& weld_reps(close, k)[t] == i || (weld_reps(close, k)[t] < i && close[i][weld_reps(
                    close,
                    k,
                )[t] as int])
            },
    decreases k,
{
    if k > 0 {
        lemma_weld_reps(close, k - 1);
        let r = weld_reps(close, k - 1);
        lemma_first_close(close[k - 1], r, r.len() as int);
        let cur = weld_reps(close, k);
        let f = first_close(close[k - 1], r, r.len() as int);
        if f < r.len() {
            assert(cur == r);
        } else {
            assert(cur == r.push((k - 1) as usize));
            assert forall|a: int, b: int| 0 <= a < b < cur.len() implies cur[a] < cur[b] by {
                if b < r.len() {
                    assert(cur[a] == r[a] && cur[b] == r[b]);
                } else {
                    assert(cur[a] == r[a]);
                }
            }
        }
        assert forall|i: int| 0 <= i < k implies {
            let t = #[trigger] weld_target(close, i);
            &&& 0 <= t < cur.len()
            &&& cur[t] == i || (cur[t] < i && close[i][cur[t] as int])
        } by {
            let t = weld_target(close, i);
            if i < k - 1 {
                assert(cur[t] == r[t]);
            } else {
                assert(t == f);
                if f < r.len() {
                    assert(r[t] < k - 1);
                } else {
                    assert(cur[t] == k - 1);
                }
            }
        }
    }
}

/// Finds the first kept vertex in `reps` that `row` marks as close.
fn find_close(row: &Vec<bool>, reps: &Vec<usize>) -> (k: usize)
    requires
        forall|j: int| 0 <= j < reps@.len() ==> (#[trigger] reps@[j]) < row@.len(),
    ensures
        k == first_close(row@, reps@, reps@.len() as int),
{
    let mut k: usize = 0;
    while k < reps.len()
        invariant
            k <= reps@.len(),
            forall|j: int| 0 <= j < reps@.len() ==> (#[trigger] reps@[j]) < row@.len(),
            first_close(row@, reps@, k as int) == k,
        ensures
            k == first_close(row@, reps@, reps@.len() as int),
        decreases reps@.len() - k,
    {
        if row[reps[k]] {
            proof {
                lemma_first_close_stays(row@, reps@, k as int + 1, reps@.len() as int);
            }
            return k;
        }
        k = k + 1;
    }
    k
}

/// Once found, the first close vertex stays the answer when more kept vertices follow.
proof fn lemma_first_close_stays(row: Seq<bool>, reps: Seq<usize>, k: int, m: int)
    requires
        0 < k <= m,
        first_close(row, reps, k) < k,
    ensures
        first_close(row, reps, m) == first_close(row, reps, k),
    decreases m,
{
    if m > k {
        lemma_first_close_stays(row, reps, k, m - 1);
    }
}

/// Welds vertices together: each vertex, in order, is merged into the first kept vertex that
/// `close` marks as close to it, or kept when there is none. The triangles are renumbered to
/// the kept vertices, and the number of merged vertices is returned.
///
/// `close[i][j]` (for `j < i`) tells whether vertex `i` may be welded onto vertex `j`: the
/// caller decides it from positions, normals and texture coordinates and the thresholds it
/// uses.
///
/// A triangle index that names no vertex is reported as an error; the triangles before it
/// have then already been renumbered (corner by corner) and the vertices are unchanged.
pub fn weld_vertices(mesh: &mut VertexMesh, close: &[Vec<bool>]) -> (r: Result<usize, MeshError>)
    requires
        closeness_complete(rows_of(close@), old(mesh).vertices@.len() as int),
    ensures
        ({
            let vs = old(mesh).vertices@;
            let fs = old(mesh).triangles@;
            let c = rows_of(close@);
            let reps = weld_reps(c, vs.len() as int);
            match r {
                Ok(welded) => {
                    &&& faces_in_range(fs, vs.len() as int)
                    &&& welded == vs.len() - reps.len()
                    &&& final(mesh).vertices@ == reps.map_values(|k: usize| vs[k as int])
                    &&& final(mesh).triangles@ == fs.map_values(|f: Face| welded_face(f, c))
                },
                Err(MeshError::InvalidIndex(bad)) => {
                    &&& final(mesh).vertices@ == vs
                    &&& first_bad_corner(fs, vs.len() as int, fs.len() as int) matches Some((t, k))
                        && weld_stopped_at(fs, final(mesh).triangles@, c, vs.len() as int, t, k, bad)
                },
            }
        }),
{
    let ghost vs = mesh.vertices@;
    let ghost fs = mesh.triangles@;
    let ghost c = rows_of(close@);
    let n = mesh.vertices.len();
    let mut reps: Vec<usize> = Vec::new();
    let mut map: Vec<usize> = Vec::new();
    let mut i: usize = 0;
    while i < n
        invariant
            i <= n,
            n == vs.len(),
            mesh.vertices@ == vs,
            mesh.triangles@ == fs,
            c == rows_of(close@),
            closeness_complete(c, n as int),
            reps@ == weld_reps(c, i as int),
            map@.len() == i,
            forall|j: int| 0 <= j < i ==> #[trigger] map@[j] == weld_target(c, j),
        decreases n - i,
    {
        proof {
            lemma_weld_reps(c, i as int);
            assert(close@[i as int]@ == c[i as int]);
            assert forall|j: int| 0 <= j < reps@.len() implies (#[trigger] reps@[j]) < close@[i as int]@.len() by {
                assert(c[i as int].len() >= i);
            }
        }
        let k = find_close(&close[i], &reps);
        assert(k == weld_target(c, i as int));
        if k == reps.len() {
            reps.push(i);
        }
        map.push(k);
        i = i + 1;
    }
    proof {
        lemma_weld_reps(c, n as int);
    }
    let welded = n - reps.len();
    let mut t: usize = 0;
    while t < mesh.triangles.len()
        invariant
            t <= fs.len(),
            n == vs.len(),
            vs == old(mesh).vertices@,
            fs == old(mesh).triangles@,
            c == rows_of(close@),
            mesh.vertices@ == vs,
            mesh.triangles@.len() == fs.len(),
            map@.len() == n,
            forall|j: int| 0 <= j < n ==> #[trigger] map@[j] == weld_target(c, j),
            forall|j: int| 0 <= j < t ==> #[trigger] face_in_range(fs[j], n as int),
            forall|j: int| 0 <= j < t ==> #[trigger] mesh.triangles@[j] == welded_face(fs[j], c),
            forall|j: int| t <= j < fs.len() ==> #[trigger] mesh.triangles@[j] == fs[j],
        decreases fs.len() - t,
    {
        let f = mesh.triangles[t];
        let ghost before = mesh.triangles@;
        let a = f.indices[0];
        if a >= n {
            assert(fs[t as int].indices@[0] == a);
            assert(mesh.triangles@[t as int] == weld_face_prefix(fs[t as int], c, 0)) by {
                assert(weld_face_prefix(fs[t as int], c, 0).indices =~= fs[t as int].indices);
            }
            assert(weld_stopped_at(fs, mesh.triangles@, c, n as int, t as int, 0, a));
            proof {
                lemma_first_bad_corner(fs, n as int, t as int, t as int);
                lemma_first_bad_corner(fs, n as int, t + 1, fs.len() as int);
            }
            return Err(MeshError::InvalidIndex(a));
        }
        let ma = map[a];
        mesh.triangles.set(t, Face { indices: [ma, f.indices[1], f.indices[2]] });
        let b = f.indices[1];
        if b >= n {
            assert(fs[t as int].indices@[1] == b);
            assert(mesh.triangles@[t as int] == weld_face_prefix(fs[t as int], c, 1)) by {
                assert(weld_face_prefix(fs[t as int], c, 1).indices =~= mesh.triangles@[t as int].indices);
            }
            assert(weld_stopped_at(fs, mesh.triangles@, c, n as int, t as int, 1, b));
            proof {
                lemma_first_bad_corner(fs, n as int, t as int, t as int);
                lemma_first_bad_corner(fs, n as int, t + 1, fs.len() as int);
            }
            return Err(MeshError::InvalidIndex(b));
        }
        let mb = map[b];
        mesh.triangles.set(t, Face { indices: [ma, mb, f.indices[2]] });
        let cc = f.indices[2];
        if cc >= n {
            assert(fs[t as int].indices@[2] == cc);
            assert(mesh.triangles@[t as int] == weld_face_prefix(fs[t as int], c, 2)) by {
                assert(weld_face_prefix(fs[t as int], c, 2).indices =~= mesh.triangles@[t as int].indices);
            }
            assert(weld_stopped_at(fs, mesh.triangles@, c, n as int, t as int, 2, cc));
            proof {
                lemma_first_bad_corner(fs, n as int, t as int, t as int);
                lemma_first_bad_corner(fs, n as int, t + 1, fs.len() as int);
            }
            return Err(MeshError::InvalidIndex(cc));
        }
        let mc = map[cc];
        mesh.triangles.set(t, Face { indices: [ma, mb, mc] });
        assert(mesh.triangles@[t as int] == welded_face(fs[t as int], c)) by {
            assert(welded_face(fs[t as int], c).indices =~= mesh.triangles@[t as int].indices);
        }
        assert(face_in_range(fs[t as int], n as int));
        t = t + 1;
    }
    assert(mesh.triangles@ =~= fs.map_values(|f: Face| welded_face(f, c)));
    proof {
        lemma_first_bad_corner(fs, n as int, fs.len() as int, fs.len() as int);
    }
    let mut new_vertices: Vec<Vertex> = Vec::new();
    let mut k: usize = 0;
    while k < reps.len()
        invariant
            k <= reps@.len(),
            n == vs.len(),
            mesh.vertices@ == vs,
            reps@ == weld_reps(c, n as int),
            forall|a: int| 0 <= a < reps@.len() ==> reps@[a] < n,
            new_vertices@ == reps@.subrange(0, k as int).map_values(|r: usize| vs[r as int]),
        decreases reps@.len() - k,
    {
        new_vertices.push(mesh.vertices[reps[k]]);
        k = k + 1;
        assert(new_vertices@ =~= reps@.subrange(0, k as int).map_values(|r: usize| vs[r as int]));
    }
    assert(reps@.subrange(0, k as int) =~= reps@);
    mesh.vertices = new_vertices;
    Ok(welded)
}

/// Welding keeps vertices in their original order, and every vertex goes either to itself
/// (it is kept) or to an earlier kept vertex that it is close to; a well-formed mesh stays
/// well formed.
pub proof fn lemma_weld_vertices(vs: Seq<Vertex>, fs: Seq<Face>, close: Seq<Seq<bool>>)
    requires
        vs.len() <= usize::MAX,
        closeness_complete(close, vs.len() as int),
        faces_in_range(fs, vs.len() as int),
    ensures
        ({
            let reps = weld_reps(close, vs.len() as int);
            &&& forall|a: int, b: int| 0 <= a < b < reps.len() ==> reps[a] < reps[b]
            &&& forall|i: int|
                0 <= i < vs.len() ==> {
                    let t = #[trigger] weld_target(close, i);
                    &&& 0 <= t < reps.len()
                    &&& reps[t] == i || (reps[t] < i && close[i][reps[t] as int])
                }
            &&& faces_in_range(fs.map_values(|f: Face| welded_face(f, close)), reps.len() as int)
        }),
{
    let n = vs.len() as int;
    lemma_weld_reps(close, n);
    let reps = weld_reps(close, n);
    let nfs = fs.map_values(|f: Face| welded_face(f, close));
    assert forall|i: int| 0 <= i < nfs.len() implies #[trigger] face_in_range(nfs[i], reps.len() as int) by {
        let f = fs[i];
        assert(face_in_range(f, n));
        let t0 = weld_target(close, f.indices@[0] as int);
        let t1 = weld_target(close, f.indices@[1] as int);
        let t2 = weld_target(close, f.indices@[2] as int);
        assert(0 <= t0 < reps.len());
        assert(0 <= t1 < reps.len());
        assert(0 <= t2 < reps.len());
    }
}

/// The edge between vertices `a` and `b` with the smaller index first.
pub open spec fn edge_key(a: usize, b: usize) -> (usize, usize) {
    if a < b {
        (a, b)
    } else {
        (b, a)
    }
}

/// The position of the first occurrence of `key` among `edges[0 .. k]`, or `k`.
pub open spec fn find_edge(edges: Seq<(usize, usize)>, key: (usize, usize), k: int) -> int
    decreases k,
{
    if k <= 0 {
        0
    } else {
        let f = find_edge(edges, key, k - 1);
        if f < k - 1 {
            f
        } else if edges[k - 1] == key {
            k - 1
        } else {
            k
        }
    }
}

/// One midpoint lookup of subdivision over a mesh that had `n` vertices, after the midpoints
/// of `edges` were added (the midpoint of `edges[i]` is vertex `n + i`): the midpoint of the
/// edge between `a` and `b` is reused when it exists; otherwise it is created, provided both
/// ends name existing vertices. Gives the edges afterwards, the midpoint's index, and the
/// offending index when an end names no vertex.
pub open spec fn midpoint_step(edges: Seq<(usize, usize)>, n: int, a: usize, b: usize) -> (
    Seq<(usize, usize)>,
    usize,
    Option<usize>,
) {
    let key = edge_key(a, b);
    let f = find_edge(edges, key, edges.len() as int);
    if f < edges.len() {
        (edges, (n + f) as usize, None)
    } else if key.1 >= n + edges.len() {
        (edges, 0, Some(key.1))
    } else {
        (edges.push(key), (n + edges.len()) as usize, None)
    }
}

/// Subdividing one triangle (a, b, c) into (a, ab, ca), (ab, b, bc), (ca, bc, c) and
/// (ab, bc, ca), where ab, bc and ca are the midpoints of its edges; stops at the first
/// midpoint lookup that fails.
pub open spec fn subdivide_face(out: Seq<Face>, edges: Seq<(usize, usize)>, n: int, f: Face) -> (
    Seq<Face>,
    Seq<(usize, usize)>,
    Option<usize>,
) {
    let a = f.indices[0];
    let b = f.indices[1];
    let c = f.indices[2];
    let (e1, ab, err1) = midpoint_step(edges, n, a, b);
    if err1 is Some {
        (out, e1, err1)
    } else {
        let (e2, bc, err2) = midpoint_step(e1, n, b, c);
        if err2 is Some {
            (out, e2, err2)
        } else {
            let (e3, ca, err3) = midpoint_step(e2, n, c, a);
            if err3 is Some {
                (out, e3, err3)
            } else {
                (
                    out + seq![
                        Face { indices: [a, ab, ca] },
                        Face { indices: [ab, b, bc] },
                        Face { indices: [ca, bc, c] },
                        Face { indices: [ab, bc, ca] },
                    ],
                    e3,
                    None,
                )
            }
        }
    }
}

/// Subdivision of the first `m` triangles of `fs` over a mesh of `n` vertices: the new
/// triangles, the edges whose midpoints were added (in the order they were added), and the
/// index that stopped it, if one did.
pub open spec fn subdivision(fs: Seq<Face>, n: int, m: int) -> (Seq<Face>, Seq<(usize, usize)>, Option<usize>)
    decreases m,
{
    if m <= 0 {
        (Seq::empty(), Seq::empty(), None)
    } else {
        let (out, edges, err) = subdivision(fs, n, m - 1);
        if err is Some {
            (out, edges, err)
        } else {
            subdivide_face(out, edges, n, fs[m - 1])
        }
    }
}

/// The search result is at most `k`, a hit holds the key, and a miss means the key is not
/// among the first `k` edges.
proof fn lemma_find_edge(edges: Seq<(usize, usize)>, key: (usize, usize), k: int)
    requires
        0 <= k <= edges.len(),
    ensures
        0 <= find_edge(edges, key, k) <= k,
        find_edge(edges, key, k) < k ==> edges[find_edge(edges, key, k)] == key,
        find_edge(edges, key, k) == k ==> forall|j: int| 0 <= j < k ==> #[trigger] edges[j] != key,
    decreases k,
{
    if k > 0 {
        lemma_find_edge(edges, key, k - 1);
    }
}

/// Looks up the midpoint of the edge between `a` and `b` among the midpoints created so far
/// (`edges`, whose midpoints are vertices `n`, `n + 1`, ...), creating it when it is new.
/// Returns its vertex index, or the larger end of the edge when that end names no vertex.
fn get_or_create_midpoint(edges: &mut Vec<(usize, usize)>, n: usize, a: usize, b: usize) -> (r: Result<usize, usize>)
    requires
        n + old(edges)@.len() < usize::MAX,
    ensures
        ({
            let (e, idx, err) = midpoint_step(old(edges)@, n as int, a, b);
            &&& final(edges)@ == e
            &&& match r {
                Ok(i) => err is None && i == idx,
                Err(bad) => err == Some(bad),
            }
        }),
{
    let key = if a < b { (a, b) } else { (b, a) };
    let mut k: usize = 0;
    while k < edges.len()
        invariant
            k <= edges@.len(),
            find_edge(edges@, key, k as int) == k,
            n + edges@.len() < usize::MAX,
        ensures
            k == find_edge(edges@, key, edges@.len() as int),
        decreases edges@.len() - k,
    {
        let e = edges[k];
        if e.0 == key.0 && e.1 == key.1 {
            proof {
                lemma_find_edge_stays(edges@, key, k as int + 1, edges@.len() as int);
            }
            break;
        }
        k = k + 1;
    }
    if k < edges.len() {
        return Ok(n + k);
    }
    if key.1 >= n + edges.len() {
        return Err(key.1);
    }
    let idx = n + edges.len();
    edges.push(key);
    Ok(idx)
}

/// Once found, an edge stays the first occurrence when more edges follow.
proof fn lemma_find_edge_stays(edges: Seq<(usize, usize)>, key: (usize, usize), k: int, m: int)
    requires
        0 < k <= m,
        find_edge(edges, key, k) < k,
    ensures
        find_edge(edges, key, m) == find_edge(edges, key, k),
    decreases m,
{
    if m > k {
        lemma_find_edge_stays(edges, key, k, m - 1);
    }
}

/// Once subdivision has stopped, looking at more triangles changes nothing.
proof fn lemma_subdivision_stops(fs: Seq<Face>, n: int, m: int, w: int)
    requires
        0 <= m <= w,
        subdivision(fs, n, m).2 is Some,
    ensures
        subdivision(fs, n, w) == subdivision(fs, n, m),
    decreases w,
{
    if w > m {
        lemma_subdivision_stops(fs, n, m, w - 1);
    }
}

/// The index bookkeeping of subdividing every triangle of a mesh with `n` vertices into four:
/// the new triangles, the edges whose midpoints become the new vertices `n`, `n + 1`, ... (in
/// that order; a midpoint shared by two triangles is created once), and the first index that
/// named no vertex at the time it was looked up, if any (subdivision stops there; what was
/// produced until then is returned).
///
/// The caller adds the midpoint vertices (their positions, normals and texture coordinates
/// are averages of the edge ends) and replaces the triangles.
pub fn plan_subdivision(faces: &[Face], n: usize) -> (r: (Vec<Face>, Vec<(usize, usize)>, Option<usize>))
    requires
        n + 3 * faces@.len() < usize::MAX,
    ensures
        (r.0@, r.1@, r.2) == subdivision(faces@, n as int, faces@.len() as int),
{
    let mut out: Vec<Face> = Vec::new();
    let mut edges: Vec<(usize, usize)> = Vec::new();
    let mut t: usize = 0;
    while t < faces.len()
        invariant
            t <= faces@.len(),
            n + 3 * faces@.len() < usize::MAX,
            (out@, edges@, None::<usize>) == subdivision(faces@, n as int, t as int),
            edges@.len() <= 3 * t,
        decreases faces@.len() - t,
    {
        let f = faces[t];
        let a = f.indices[0];
        let b = f.indices[1];
        let c = f.indices[2];
        proof {
            assert(f == faces@[t as int]);
        }
        let ab = match get_or_create_midpoint(&mut edges, n, a, b) {
            Ok(i) => i,
            Err(bad) => {
                proof {
                    lemma_subdivision_stops(faces@, n as int, t + 1, faces@.len() as int);
                }
                return (out, edges, Some(bad));
            },
        };
        let bc = match get_or_create_midpoint(&mut edges, n, b, c) {
            Ok(i) => i,
            Err(bad) => {
                proof {
                    lemma_subdivision_stops(faces@, n as int, t + 1, faces@.len() as int);
                }
                return (out, edges, Some(bad));
            },
        };
        let ca = match get_or_create_midpoint(&mut edges, n, c, a) {
            Ok(i) => i,
            Err(bad) => {
                proof {
                    lemma_subdivision_stops(faces@, n as int, t + 1, faces@.len() as int);
                }
                return (out, edges, Some(bad));
            },
        };
        let ghost before = out@;
        out.push(Face { indices: [a, ab, ca] });
        out.push(Face { indices: [ab, b, bc] });
        out.push(Face { indices: [ca, bc, c] });
        out.push(Face { indices: [ab, bc, ca] });
        assert(out@ =~= before + seq![
            Face { indices: [a, ab, ca] },
            Face { indices: [ab, b, bc] },
            Face { indices: [ca, bc, c] },
            Face { indices: [ab, bc, ca] },
        ]);
        t = t + 1;
    }
    (out, edges, None)
}

/// The midpoint edges are pairwise different, each joins two of the first `n` vertices, and
/// the smaller index comes first.
pub open spec fn edges_valid(edges: Seq<(usize, usize)>, n: int) -> bool {
    &&& forall|i: int, j: int| 0 <= i < j < edges.len() ==> edges[i] != edges[j]
    &&& forall|i: int| 0 <= i < edges.len() ==> (#[trigger] edges[i]).0 <= edges[i].1 < n
}

/// A midpoint lookup for an edge between existing vertices succeeds, keeps the earlier edges
/// and adds at most this one.
proof fn lemma_midpoint_step(edges: Seq<(usize, usize)>, n: int, a: usize, b: usize)
    requires
        a < n,
        b < n,
        edges_valid(edges, n),
        n + edges.len() < usize::MAX,
    ensures
        ({
            let (e, idx, err) = midpoint_step(edges, n, a, b);
            &&& err is None
            &&& edges_valid(e, n)
            &&& edges.len() <= e.len() <= edges.len() + 1
            &&& e.subrange(0, edges.len() as int) == edges
            &&& n <= idx < n + e.len()
        }),
{
    let key = edge_key(a, b);
    lemma_find_edge(edges, key, edges.len() as int);
    let (e, idx, err) = midpoint_step(edges, n, a, b);
    assert(e.subrange(0, edges.len() as int) =~= edges);
    if find_edge(edges, key, edges.len() as int) == edges.len() {
        assert(e == edges.push(key));
        assert forall|i: int, j: int| 0 <= i < j < e.len() implies e[i] != e[j] by {
            if j == edges.len() {
                assert(e[i] == edges[i]);
            } else {
                assert(e[i] == edges[i] && e[j] == edges[j]);
            }
        }
        assert forall|i: int| 0 <= i < e.len() implies (#[trigger] e[i]).0 <= e[i].1 < n by {
            if i < edges.len() {
                assert(e[i] == edges[i]);
            }
        }
    }
}

/// Subdividing the triangles of a well-formed mesh never stops: every triangle becomes four,
/// all over the old vertices and the new midpoints, and each midpoint is created once, for an
/// edge between two old vertices.
pub proof fn lemma_subdivision(fs: Seq<Face>, n: int)
    requires
        n >= 0,
        n + 3 * fs.len() < usize::MAX,
        faces_in_range(fs, n),
    ensures
        ({
            let (out, edges, err) = subdivision(fs, n, fs.len() as int);
            &&& err is None
            &&& out.len() == 4 * fs.len()
            &&& faces_in_range(out, n + edges.len())
            &&& edges_valid(edges, n)
            &&& edges.len() <= 3 * fs.len()
        }),
{
    lemma_subdivision_prefix(fs, n, fs.len() as int);
}

proof fn lemma_subdivision_prefix(fs: Seq<Face>, n: int, m: int)
    requires
        n >= 0,
        0 <= m <= fs.len(),
        n + 3 * fs.len() < usize::MAX,
        faces_in_range(fs, n),
    ensures
        ({
            let (out, edges, err) = subdivision(fs, n, m);
            &&& err is None
            &&& out.len() == 4 * m
            &&& faces_in_range(out, n + edges.len())
            &&& edges_valid(edges, n)
            &&& edges.len() <= 3 * m
        }),
    decreases m,
{
    if m > 0 {
        lemma_subdivision_prefix(fs, n, m - 1);
        let (out, edges, err) = subdivision(fs, n, m - 1);
        let f = fs[m - 1];
        assert(face_in_range(f, n));
        let a = f.indices[0];
        let b = f.indices[1];
        let c = f.indices[2];
        lemma_midpoint_step(edges, n, a, b);
        let (e1, ab, err1) = midpoint_step(edges, n, a, b);
        lemma_midpoint_step(e1, n, b, c);
        let (e2, bc, err2) = midpoint_step(e1, n, b, c);
        lemma_midpoint_step(e2, n, c, a);
        let (e3, ca, err3) = midpoint_step(e2, n, c, a);
        let quad = seq![
            Face { indices: [a, ab, ca] },
            Face { indices: [ab, b, bc] },
            Face { indices: [ca, bc, c] },
            Face { indices: [ab, bc, ca] },
        ];
        assert(subdivision(fs, n, m) == (out + quad, e3, None::<usize>));
        let new_out = out + quad;
        assert forall|i: int| 0 <= i < new_out.len() implies #[trigger] face_in_range(new_out[i], n + e3.len()) by {
            if i < out.len() {
                assert(new_out[i] == out[i]);
                assert(face_in_range(out[i], n + edges.len()));
            } else {
                let q = i - out.len();
                assert(new_out[i] == quad[q]);
            }
        }
    }
}

/// The position of the first occurrence of `v` among `s[0 .. k]`, or `k`.
pub open spec fn position_of(s: Seq<usize>, v: usize, k: int) -> int
    decreases k,
{
    if k <= 0 {
        0
    } else {
        let f = position_of(s, v, k - 1);
        if f < k - 1 {
            f
        } else if s[k - 1] == v {
            k - 1
        } else {
            k
        }
    }
}

/// `s` with `v` appended unless it already occurs.
pub open spec fn push_new(s: Seq<usize>, v: usize) -> Seq<usize> {
    if position_of(s, v, s.len() as int) < s.len() {
        s
    } else {
        s.push(v)
    }
}

/// The vertices to extrude for the first `m` selected triangles: the corners of the selected
/// triangles, each once, in the order they first occur.
pub open spec fn extruded_vertices(tris: Seq<Face>, faces: Seq<usize>, m: int) -> Seq<usize>
    decreases m,
{
    if m <= 0 {
        Seq::empty()
    } else {
        let f = tris[faces[m - 1] as int];
        push_new(
            push_new(push_new(extruded_vertices(tris, faces, m - 1), f.indices[0]), f.indices[1]),
            f.indices[2],
        )
    }
}

/// The index of the extruded copy of vertex `v`: the copies follow the `n` existing vertices
/// in the order of `extruded`.
pub open spec fn copy_of(extruded: Seq<usize>, n: int, v: usize) -> usize {
    (n + position_of(extruded, v, extruded.len() as int)) as usize
}

/// The triangles that extruding face (a, b, c) adds: the moved face (a', c', b'), facing the
/// other way round, and two triangles for each side joining an edge to its moved copy.
pub open spec fn extrusion_of(f: Face, extruded: Seq<usize>, n: int) -> Seq<Face> {
    let a = f.indices[0];
    let b = f.indices[1];
    let c = f.indices[2];
    let an = copy_of(extruded, n, a);
    let bn = copy_of(extruded, n, b);
    let cn = copy_of(extruded, n, c);
    seq![
        Face { indices: [an, cn, bn] },
        Face { indices: [a, b, bn] },
        Face { indices: [a, bn, an] },
        Face { indices: [b, c, cn] },
        Face { indices: [b, cn, bn] },
        Face { indices: [c, a, an] },
        Face { indices: [c, an, cn] },
    ]
}

/// The triangles added for the first `m` selected triangles, selection after selection.
pub open spec fn extrusion_faces(tris: Seq<Face>, faces: Seq<usize>, extruded: Seq<usize>, n: int, m: int) -> Seq<Face>
    decreases m,
{
    if m <= 0 {
        Seq::empty()
    } else {
        extrusion_faces(tris, faces, extruded, n, m - 1) + extrusion_of(tris[faces[m - 1] as int], extruded, n)
    }
}

/// The first selected triangle index, in selection order, that names no triangle.
pub open spec fn first_bad_selection(faces: Seq<usize>, count: int, m: int) -> Option<usize>
    decreases m,
{
    if m <= 0 {
        None
    } else {
        let prev = first_bad_selection(faces, count, m - 1);
        if prev is Some {
            prev
        } else if faces[m - 1] >= count {
            Some(faces[m - 1])
        } else {
            None
        }
    }
}

/// A selected triangle reached before any bad selection refers to existing vertices (the
/// extrusion reads the positions of its corners).
pub open spec fn selection_readable(tris: Seq<Face>, faces: Seq<usize>, n: int) -> bool {
    forall|p: int|
        0 <= p < faces.len() && first_bad_selection(faces, tris.len() as int, p) is None && faces[p]
            < tris.len() ==> #[trigger] face_in_range(tris[faces[p] as int], n)
}

proof fn lemma_position_of(s: Seq<usize>, v: usize, k: int)
    requires
        0 <= k <= s.len(),
    ensures
        0 <= position_of(s, v, k) <= k,
        position_of(s, v, k) < k ==> s[position_of(s, v, k)] == v,
        position_of(s, v, k) == k ==> forall|j: int| 0 <= j < k ==> #[trigger] s[j] != v,
    decreases k,
{
    if k > 0 {
        lemma_position_of(s, v, k - 1);
    }
}

proof fn lemma_position_of_stays(s: Seq<usize>, v: usize, k: int, m: int)
    requires
        0 < k <= m,
        position_of(s, v, k) < k,
    ensures
        position_of(s, v, m) == position_of(s, v, k),
    decreases m,
{
    if m > k {
        lemma_position_of_stays(s, v, k, m - 1);
    }
}

/// Finds the first occurrence of `v` in `s` (or `s.len()`).
fn find_position(s: &Vec<usize>, v: usize) -> (k: usize)
    ensures
        k == position_of(s@, v, s@.len() as int),
{
    let mut k: usize = 0;
    while k < s.len()
        invariant
            k <= s@.len(),
            position_of(s@, v, k as int) == k,
        ensures
            k == position_of(s@, v, s@.len() as int),
        decreases s@.len() - k,
    {
        if s[k] == v {
            proof {
                lemma_position_of_stays(s@, v, k as int + 1, s@.len() as int);
            }
            break;
        }
        k = k + 1;
    }
    k
}

/// Appends `v` to `s` unless it already occurs.
fn push_if_new(s: &mut Vec<usize>, v: usize)
    ensures
        final(s)@ == push_new(old(s)@, v),
{
    let k = find_position(s, v);
    if k == s.len() {
        s.push(v);
    }
}

/// Once a bad selection is found it stays the first one.
proof fn lemma_first_bad_selection_stays(faces: Seq<usize>, count: int, m: int, w: int)
    requires
        0 <= m <= w,
        first_bad_selection(faces, count, m) is Some,
    ensures
        first_bad_selection(faces, count, w) == first_bad_selection(faces, count, m),
    decreases w,
{
    if w > m {
        lemma_first_bad_selection_stays(faces, count, m, w - 1);
    }
}

/// The index bookkeeping of extruding the selected triangles `faces` of a mesh with `n`
/// vertices and triangles `tris`: which vertices get a moved copy (the copies become
/// vertices `n`, `n + 1`, ... in this order) and the triangles to add, seven per selected
/// triangle (see [`extrusion_of`]). A selected index that names no triangle is reported and
/// nothing is to be changed. The caller computes where each copy moves (along the average
/// normal of the selected triangles around it).
pub fn plan_extrusion(tris: &[Face], n: usize, faces: &[usize]) -> (r: Result<(Vec<usize>, Vec<Face>), MeshError>)
    requires
        selection_readable(tris@, faces@, n as int),
        n + 3 * faces@.len() < usize::MAX,
    ensures
        match r {
            Ok((extruded, added)) => {
                &&& first_bad_selection(faces@, tris@.len() as int, faces@.len() as int) is None
                &&& extruded@ == extruded_vertices(tris@, faces@, faces@.len() as int)
                &&& added@ == extrusion_faces(tris@, faces@, extruded@, n as int, faces@.len() as int)
            },
            Err(MeshError::InvalidIndex(bad)) => first_bad_selection(faces@, tris@.len() as int, faces@.len() as int)
                == Some(bad),
        },
{
    let mut extruded: Vec<usize> = Vec::new();
    let mut p: usize = 0;
    while p < faces.len()
        invariant
            p <= faces@.len(),
            first_bad_selection(faces@, tris@.len() as int, p as int) is None,
            extruded@ == extruded_vertices(tris@, faces@, p as int),
            extruded@.len() <= 3 * p,
        decreases faces@.len() - p,
    {
        let face_idx = faces[p];
        if face_idx >= tris.len() {
            proof {
                lemma_first_bad_selection_stays(faces@, tris@.len() as int, p + 1, faces@.len() as int);
            }
            return Err(MeshError::InvalidIndex(face_idx));
        }
        let f = tris[face_idx];
        push_if_new(&mut extruded, f.indices[0]);
        push_if_new(&mut extruded, f.indices[1]);
        push_if_new(&mut extruded, f.indices[2]);
        p = p + 1;
    }
    let mut added: Vec<Face> = Vec::new();
    let mut q: usize = 0;
    while q < faces.len()
        invariant
            q <= faces@.len(),
            p == faces@.len(),
            first_bad_selection(faces@, tris@.len() as int, faces@.len() as int) is None,
            extruded@ == extruded_vertices(tris@, faces@, faces@.len() as int),
            extruded@.len() <= 3 * faces@.len(),
            n + 3 * faces@.len() < usize::MAX,
            added@ == extrusion_faces(tris@, faces@, extruded@, n as int, q as int),
        decreases faces@.len() - q,
    {
        proof {
            lemma_selection_valid(faces@, tris@.len() as int, q as int, faces@.len() as int);
        }
        let f = tris[faces[q]];
        let a = f.indices[0];
        let b = f.indices[1];
        let c = f.indices[2];
        let ka = find_position(&extruded, a);
        let kb = find_position(&extruded, b);
        let kc = find_position(&extruded, c);
        proof {
            lemma_position_of(extruded@, a, extruded@.len() as int);
            lemma_position_of(extruded@, b, extruded@.len() as int);
            lemma_position_of(extruded@, c, extruded@.len() as int);
        }
        let an = n + ka;
        let bn = n + kb;
        let cn = n + kc;
        let ghost before = added@;
        added.push(Face { indices: [an, cn, bn] });
        added.push(Face { indices: [a, b, bn] });
        added.push(Face { indices: [a, bn, an] });
        added.push(Face { indices: [b, c, cn] });
        added.push(Face { indices: [b, cn, bn] });
        added.push(Face { indices: [c, a, an] });
        added.push(Face { indices: [c, an, cn] });
        assert(added@ =~= before + extrusion_of(tris@[faces@[q as int] as int], extruded@, n as int));
        q = q + 1;
    }
    Ok((extruded, added))
}

/// With no bad selection among all of them, every selection names a triangle.
proof fn lemma_selection_valid(faces: Seq<usize>, count: int, q: int, m: int)
    requires
        0 <= q < m <= faces.len(),
        first_bad_selection(faces, count, m) is None,
    ensures
        faces[q] < count,
        first_bad_selection(faces, count, q) is None,
    decreases m,
{
    if m > q + 1 {
        lemma_selection_valid(faces, count, q, m - 1);
    }
}

/// Selection `p` names a triangle whose corners are among the first `n` vertices.
pub open spec fn selected_in_range(tris: Seq<Face>, faces: Seq<usize>, n: int, p: int) -> bool {
    faces[p] < tris.len() && face_in_range(tris[faces[p] as int], n)
}

/// Appending a vertex unless present keeps the sequence free of repeats and makes it hold the
/// vertex.
proof fn lemma_push_new(s: Seq<usize>, v: usize)
    requires
        forall|i: int, j: int| 0 <= i < j < s.len() ==> s[i] != s[j],
    ensures
        forall|i: int, j: int| 0 <= i < j < push_new(s, v).len() ==> push_new(s, v)[i] != push_new(s, v)[j],
        push_new(s, v).contains(v),
        forall|w: usize| s.contains(w) ==> push_new(s, v).contains(w),
        forall|w: usize| push_new(s, v).contains(w) ==> s.contains(w) || w == v,
{
    lemma_position_of(s, v, s.len() as int);
    let t = push_new(s, v);
    if position_of(s, v, s.len() as int) < s.len() {
        assert(s[position_of(s, v, s.len() as int)] == v);
    } else {
        assert(t[s.len() as int] == v);
        assert forall|w: usize| s.contains(w) implies t.contains(w) by {
            let i = choose|i: int| 0 <= i < s.len() && s[i] == w;
            assert(t[i] == w);
        }
        assert forall|w: usize| t.contains(w) implies s.contains(w) || w == v by {
            let i = choose|i: int| 0 <= i < t.len() && t[i] == w;
            if i < s.len() {
                assert(s[i] == w);
            }
        }
    }
}

/// The vertices to extrude for the first `m` selections are pairwise different and are
/// exactly the corners of the selected triangles.
proof fn lemma_extruded_vertices(tris: Seq<Face>, faces: Seq<usize>, n: int, m: int)
    requires
        0 <= m <= faces.len(),
        forall|p: int| 0 <= p < m ==> #[trigger] selected_in_range(tris, faces, n, p),
    ensures
        ({
            let e = extruded_vertices(tris, faces, m);
            &&& forall|i: int, j: int| 0 <= i < j < e.len() ==> e[i] != e[j]
            &&& forall|i: int| 0 <= i < e.len() ==> #[trigger] e[i] < n
            &&& forall|p: int, k: int|
                0 <= p < m && 0 <= k < 3 ==> e.contains(#[trigger] tris[faces[p] as int].indices@[k])
        }),
    decreases m,
{
    if m > 0 {
        lemma_extruded_vertices(tris, faces, n, m - 1);
        let e0 = extruded_vertices(tris, faces, m - 1);
        let f = tris[faces[m - 1] as int];
        assert(selected_in_range(tris, faces, n, m - 1));
        let e1 = push_new(e0, f.indices[0]);
        let e2 = push_new(e1, f.indices[1]);
        let e3 = push_new(e2, f.indices[2]);
        lemma_push_new(e0, f.indices[0]);
        lemma_push_new(e1, f.indices[1]);
        lemma_push_new(e2, f.indices[2]);
        assert forall|i: int| 0 <= i < e3.len() implies #[trigger] e3[i] < n by {
            assert(e3.contains(e3[i]));
            if !e0.contains(e3[i]) {
                assert(e3[i] == f.indices[0] || e3[i] == f.indices[1] || e3[i] == f.indices[2]);
            } else {
                let j = choose|j: int| 0 <= j < e0.len() && e0[j] == e3[i];
                assert(e0[j] < n);
            }
        }
        assert forall|p: int, k: int| 0 <= p < m && 0 <= k < 3 implies e3.contains(#[trigger] tris[faces[p] as int].indices@[k]) by {
            if p < m - 1 {
                assert(e0.contains(tris[faces[p] as int].indices@[k]));
            } else {
                assert(tris[faces[p] as int] == f);
            }
        }
    }
}

/// Extruding a valid selection of a well-formed mesh copies each corner of the selected
/// triangles once, and the added triangles refer only to the old vertices and the copies.
pub proof fn lemma_extrusion(tris: Seq<Face>, faces: Seq<usize>, n: int)
    requires
        faces_in_range(tris, n),
        first_bad_selection(faces, tris.len() as int, faces.len() as int) is None,
        n + 3 * faces.len() < usize::MAX,
        n >= 0,
    ensures
        ({
            let e = extruded_vertices(tris, faces, faces.len() as int);
            let added = extrusion_faces(tris, faces, e, n, faces.len() as int);
            &&& forall|i: int, j: int| 0 <= i < j < e.len() ==> e[i] != e[j]
            &&& forall|i: int| 0 <= i < e.len() ==> #[trigger] e[i] < n
            &&& forall|p: int, k: int|
                0 <= p < faces.len() && 0 <= k < 3 ==> e.contains(#[trigger] tris[faces[p] as int].indices@[k])
            &&& added.len() == 7 * faces.len()
            &&& faces_in_range(added, n + e.len())
        }),
{
    let m = faces.len() as int;
    assert forall|p: int| 0 <= p < m implies #[trigger] selected_in_range(tris, faces, n, p) by {
        lemma_selection_valid(faces, tris.len() as int, p, m);
        assert(face_in_range(tris[faces[p] as int], n));
    }
    lemma_extruded_vertices(tris, faces, n, m);
    lemma_extruded_count(tris, faces, m);
    let e = extruded_vertices(tris, faces, m);
    lemma_extrusion_faces(tris, faces, e, n, m);
}

proof fn lemma_extruded_count(tris: Seq<Face>, faces: Seq<usize>, m: int)
    requires
        0 <= m,
    ensures
        extruded_vertices(tris, faces, m).len() <= 3 * m,
    decreases m,
{
    if m > 0 {
        lemma_extruded_count(tris, faces, m - 1);
    }
}

proof fn lemma_extrusion_faces(tris: Seq<Face>, faces: Seq<usize>, e: Seq<usize>, n: int, m: int)
    requires
        0 <= m <= faces.len(),
        n >= 0,
        n + e.len() <= usize::MAX,
        forall|p: int| 0 <= p < m ==> #[trigger] selected_in_range(tris, faces, n, p),
        forall|p: int, k: int| 0 <= p < m && 0 <= k < 3 ==> e.contains(#[trigger] tris[faces[p] as int].indices@[k]),
        forall|i: int| 0 <= i < e.len() ==> #[trigger] e[i] < n,
    ensures
        extrusion_faces(tris, faces, e, n, m).len() == 7 * m,
        faces_in_range(extrusion_faces(tris, faces, e, n, m), n + e.len()),
    decreases m,
{
    if m > 0 {
        lemma_extrusion_faces(tris, faces, e, n, m - 1);
        let prev = extrusion_faces(tris, faces, e, n, m - 1);
        let f = tris[faces[m - 1] as int];
        assert(selected_in_range(tris, faces, n, m - 1));
        let seven = extrusion_of(f, e, n);
        assert forall|k: int| 0 <= k < 3 implies copy_of(e, n, #[trigger] f.indices@[k]) < n + e.len() by {
            assert(e.contains(tris[faces[m - 1] as int].indices@[k]));
            let v = f.indices@[k];
            lemma_position_of(e, v, e.len() as int);
            let i = choose|i: int| 0 <= i < e.len() && e[i] == v;
            assert(e[i] == v);
        }
        assert(copy_of(e, n, f.indices@[0]) < n + e.len());
        assert(copy_of(e, n, f.indices@[1]) < n + e.len());
        assert(copy_of(e, n, f.indices@[2]) < n + e.len());
        let cur = prev + seven;
        assert forall|i: int| 0 <= i < cur.len() implies #[trigger] face_in_range(cur[i], n + e.len()) by {
            if i < prev.len() {
                assert(cur[i] == prev[i]);
                assert(face_in_range(prev[i], n + e.len()));
            } else {
                assert(cur[i] == seven[i - prev.len()]);
            }
        }
    }
}

/// The seven triangles added for selection `p`.
pub open spec fn block7(s: Seq<Face>, p: int) -> Seq<Face> {
    s.subrange(7 * p, 7 * p + 7)
}

/// The triangles added for the first `m` selections come in blocks of seven, block `p` being
/// those of selection `p`.
proof fn lemma_extrusion_blocks(tris: Seq<Face>, faces: Seq<usize>, e: Seq<usize>, n: int, m: int)
    requires
        0 <= m,
    ensures
        extrusion_faces(tris, faces, e, n, m).len() == 7 * m,
        forall|p: int|
            0 <= p < m ==> #[trigger] block7(extrusion_faces(tris, faces, e, n, m), p) == extrusion_of(
                tris[faces[p] as int],
                e,
                n,
            ),
    decreases m,
{
    if m > 0 {
        lemma_extrusion_blocks(tris, faces, e, n, m - 1);
        let prev = extrusion_faces(tris, faces, e, n, m - 1);
        let cur = extrusion_faces(tris, faces, e, n, m);
        let seven = extrusion_of(tris[faces[m - 1] as int], e, n);
        assert(cur == prev + seven);
        assert forall|p: int| 0 <= p < m implies #[trigger] block7(cur, p) == extrusion_of(tris[faces[p] as int], e, n) by {
            if p < m - 1 {
                assert(block7(cur, p) =~= block7(prev, p));
            } else {
                assert(block7(cur, p) =~= seven);
            }
        }
    }
}

/// Selection `p` added, around the copies a', b', c' of the corners of its triangle
/// (a, b, c): the moved triangle (a', c', b'), then for each edge (u, v) of the triangle in
/// winding order the two triangles (u, v, v') and (u, v', u') of the side quad, which run
/// along their shared diagonal u-v' in opposite directions.
pub open spec fn extrusion_block_ok(tris: Seq<Face>, faces: Seq<usize>, e: Seq<usize>, n: int, added: Seq<Face>, p: int) -> bool {
    let f = tris[faces[p] as int];
    let a = f.indices[0];
    let b = f.indices[1];
    let c = f.indices[2];
    let a2 = copy_of(e, n, a);
    let b2 = copy_of(e, n, b);
    let c2 = copy_of(e, n, c);
    let t = 7 * p;
    &&& added[t] == Face { indices: [a2, c2, b2] }
    &&& added[t + 1] == Face { indices: [a, b, b2] }
    &&& added[t + 2] == Face { indices: [a, b2, a2] }
    &&& added[t + 3] == Face { indices: [b, c, c2] }
    &&& added[t + 4] == Face { indices: [b, c2, b2] }
    &&& added[t + 5] == Face { indices: [c, a, a2] }
    &&& added[t + 6] == Face { indices: [c, a2, c2] }
}

/// Every extruded vertex is a corner of a selected triangle.
proof fn lemma_extruded_only(tris: Seq<Face>, faces: Seq<usize>, m: int)
    requires
        0 <= m,
    ensures
        forall|w: usize|
            #[trigger] extruded_vertices(tris, faces, m).contains(w) ==> exists|p: int, k: int|
                0 <= p < m && 0 <= k < 3 && #[trigger] tris[faces[p] as int].indices@[k] == w,
    decreases m,
{
    if m > 0 {
        lemma_extruded_only(tris, faces, m - 1);
        let prev = extruded_vertices(tris, faces, m - 1);
        let f = tris[faces[m - 1] as int];
        let s1 = push_new(prev, f.indices[0]);
        let s2 = push_new(s1, f.indices[1]);
        let s3 = push_new(s2, f.indices[2]);
        lemma_push_contains(prev, f.indices[0]);
        lemma_push_contains(s1, f.indices[1]);
        lemma_push_contains(s2, f.indices[2]);
        assert forall|w: usize| #[trigger] s3.contains(w) implies exists|p: int, k: int|
            0 <= p < m && 0 <= k < 3 && #[trigger] tris[faces[p] as int].indices@[k] == w by {
            if prev.contains(w) {
                let (p, k) = choose|p: int, k: int| 0 <= p < m - 1 && 0 <= k < 3 && #[trigger] tris[faces[p] as int].indices@[k] == w;
                assert(tris[faces[p] as int].indices@[k] == w);
            } else if w == f.indices[0] {
                assert(tris[faces[m - 1] as int].indices@[0] == w);
            } else if w == f.indices[1] {
                assert(tris[faces[m - 1] as int].indices@[1] == w);
            } else {
                assert(tris[faces[m - 1] as int].indices@[2] == w);
            }
        }
    }
}

/// A vertex of `push_new(s, v)` is `v` or a vertex of `s`.
proof fn lemma_push_contains(s: Seq<usize>, v: usize)
    ensures
        forall|w: usize| push_new(s, v).contains(w) ==> s.contains(w) || w == v,
{
    if position_of(s, v, s.len() as int) >= s.len() {
        assert forall|w: usize| push_new(s, v).contains(w) implies s.contains(w) || w == v by {
            let i = choose|i: int| 0 <= i < s.push(v).len() && s.push(v)[i] == w;
            if i < s.len() {
                assert(s[i] == w);
            }
        }
    }
}

/// Extruding a valid selection of a well-formed mesh adds, for each selected triangle in
/// selection order, seven triangles: the moved copy of the triangle and the two triangles of
/// each side quad, consistently oriented (see [`extrusion_block_ok`]). The copy of an extruded
/// vertex v is the new vertex `n + k` where v is the `k`-th extruded vertex.
pub proof fn lemma_extrusion_triangles(tris: Seq<Face>, faces: Seq<usize>, n: int)
    requires
        faces_in_range(tris, n),
        first_bad_selection(faces, tris.len() as int, faces.len() as int) is None,
        n + 3 * faces.len() < usize::MAX,
        n >= 0,
    ensures
        ({
            let e = extruded_vertices(tris, faces, faces.len() as int);
            let added = extrusion_faces(tris, faces, e, n, faces.len() as int);
            &&& added.len() == 7 * faces.len()
            &&& forall|p: int| 0 <= p < faces.len() ==> #[trigger] extrusion_block_ok(tris, faces, e, n, added, p)
            &&& forall|v: usize|
                #[trigger] e.contains(v) ==> n <= copy_of(e, n, v) < n + e.len() && e[copy_of(e, n, v) - n] == v
            &&& forall|i: int|
                0 <= i < e.len() ==> exists|p: int, k: int|
                    0 <= p < faces.len() && 0 <= k < 3 && #[trigger] tris[faces[p] as int].indices@[k] == #[trigger] e[i]
        }),
{
    lemma_extruded_only(tris, faces, faces.len() as int);
    let m = faces.len() as int;
    lemma_extrusion(tris, faces, n);
    lemma_extruded_count(tris, faces, m);
    let e = extruded_vertices(tris, faces, m);
    let added = extrusion_faces(tris, faces, e, n, m);
    lemma_extrusion_blocks(tris, faces, e, n, m);
    assert forall|p: int| 0 <= p < m implies #[trigger] extrusion_block_ok(tris, faces, e, n, added, p) by {
        let blk = block7(added, p);
        assert(blk == extrusion_of(tris[faces[p] as int], e, n));
        assert forall|j: int| 0 <= j < 7 implies added[7 * p + j] == blk[j] by {}
        assert(added[7 * p] == blk[0]);
        assert(added[7 * p + 1] == blk[1]);
        assert(added[7 * p + 2] == blk[2]);
        assert(added[7 * p + 3] == blk[3]);
        assert(added[7 * p + 4] == blk[4]);
        assert(added[7 * p + 5] == blk[5]);
        assert(added[7 * p + 6] == blk[6]);
    }
    assert forall|v: usize| #[trigger] e.contains(v) implies n <= copy_of(e, n, v) < n + e.len() && e[copy_of(e, n, v) - n] == v by {
        lemma_position_of(e, v, e.len() as int);
        let i = choose|i: int| 0 <= i < e.len() && e[i] == v;
        assert(e[i] == v);
        let pos = position_of(e, v, e.len() as int);
        assert(pos < e.len());
        assert(n + pos < usize::MAX);
        assert(copy_of(e, n, v) == n + pos);
    }
    assert forall|i: int| 0 <= i < e.len() implies exists|p: int, k: int|
        0 <= p < faces.len() && 0 <= k < 3 && #[trigger] tris[faces[p] as int].indices@[k] == #[trigger] e[i] by {
        assert(e.contains(e[i]));
    }
}

/// A successful midpoint lookup gives the midpoint of the edge looked up.
proof fn lemma_midpoint_key(edges: Seq<(usize, usize)>, n: int, a: usize, b: usize)
    requires
        a < n,
        b < n,
        edges_valid(edges, n),
        n + edges.len() < usize::MAX,
    ensures
        ({
            let (e, idx, err) = midpoint_step(edges, n, a, b);
            e[idx - n] == edge_key(a, b)
        }),
{
    let key = edge_key(a, b);
    lemma_find_edge(edges, key, edges.len() as int);
}

/// Vertex `m` is the midpoint created for the edge between `u` and `v`: the midpoint of
/// `edges[i]` is vertex `n + i`.
pub open spec fn is_midpoint(edges: Seq<(usize, usize)>, n: int, u: usize, v: usize, m: usize) -> bool {
    n <= m < n + edges.len() && edges[m - n] == edge_key(u, v)
}

/// Triangle `t` (a, b, c) of `fs` became the four triangles `out[4t ..= 4t + 3]`:
/// (a, ab, ca), (ab, b, bc), (ca, bc, c) and (ab, bc, ca), where ab, bc, ca are the midpoints
/// of its edges. Each keeps the winding of (a, b, c).
pub open spec fn subdivided_ok(fs: Seq<Face>, n: int, out: Seq<Face>, edges: Seq<(usize, usize)>, t: int) -> bool {
    let a = fs[t].indices[0];
    let b = fs[t].indices[1];
    let c = fs[t].indices[2];
    exists|ab: usize, bc: usize, ca: usize|
        #![trigger is_midpoint(edges, n, a, b, ab), is_midpoint(edges, n, b, c, bc), is_midpoint(edges, n, c, a, ca)]
        {
            &&& is_midpoint(edges, n, a, b, ab)
            &&& is_midpoint(edges, n, b, c, bc)
            &&& is_midpoint(edges, n, c, a, ca)
            &&& out[4 * t] == Face { indices: [a, ab, ca] }
            &&& out[4 * t + 1] == Face { indices: [ab, b, bc] }
            &&& out[4 * t + 2] == Face { indices: [ca, bc, c] }
            &&& out[4 * t + 3] == Face { indices: [ab, bc, ca] }
        }
}

proof fn lemma_subdivision_blocks(fs: Seq<Face>, n: int, m: int)
    requires
        n >= 0,
        0 <= m <= fs.len(),
        n + 3 * fs.len() < usize::MAX,
        faces_in_range(fs, n),
    ensures
        ({
            let (out, edges, err) = subdivision(fs, n, m);
            forall|t: int| 0 <= t < m ==> #[trigger] subdivided_ok(fs, n, out, edges, t)
        }),
    decreases m,
{
    if m > 0 {
        lemma_subdivision_blocks(fs, n, m - 1);
        lemma_subdivision_prefix(fs, n, m - 1);
        let (out, edges, err) = subdivision(fs, n, m - 1);
        let f = fs[m - 1];
        assert(face_in_range(f, n));
        let a = f.indices[0];
        let b = f.indices[1];
        let c = f.indices[2];
        lemma_midpoint_step(edges, n, a, b);
        lemma_midpoint_key(edges, n, a, b);
        let (e1, ab, err1) = midpoint_step(edges, n, a, b);
        lemma_midpoint_step(e1, n, b, c);
        lemma_midpoint_key(e1, n, b, c);
        let (e2, bc, err2) = midpoint_step(e1, n, b, c);
        lemma_midpoint_step(e2, n, c, a);
        lemma_midpoint_key(e2, n, c, a);
        let (e3, ca, err3) = midpoint_step(e2, n, c, a);
        let quad = seq![
            Face { indices: [a, ab, ca] },
            Face { indices: [ab, b, bc] },
            Face { indices: [ca, bc, c] },
            Face { indices: [ab, bc, ca] },
        ];
        assert(subdivision(fs, n, m) == (out + quad, e3, None::<usize>));
        let new_out = out + quad;
        assert(out.len() == 4 * (m - 1));
        assert(e3.subrange(0, e1.len() as int) =~= e1) by {
            assert(e3.subrange(0, e2.len() as int) == e2);
            assert(e2.subrange(0, e1.len() as int) == e1);
        }
        assert(e3.subrange(0, edges.len() as int) =~= edges) by {
            assert(e1.subrange(0, edges.len() as int) == edges);
        }
        assert forall|t: int| 0 <= t < m implies #[trigger] subdivided_ok(fs, n, new_out, e3, t) by {
            if t < m - 1 {
                assert(subdivided_ok(fs, n, out, edges, t));
                let ta = fs[t].indices[0];
                let tb = fs[t].indices[1];
                let tc = fs[t].indices[2];
                let (x, y, z) = choose|x: usize, y: usize, z: usize| {
                    &&& is_midpoint(edges, n, ta, tb, x)
                    &&& is_midpoint(edges, n, tb, tc, y)
                    &&& is_midpoint(edges, n, tc, ta, z)
                    &&& out[4 * t] == Face { indices: [ta, x, z] }
                    &&& out[4 * t + 1] == Face { indices: [x, tb, y] }
                    &&& out[4 * t + 2] == Face { indices: [z, y, tc] }
                    &&& out[4 * t + 3] == Face { indices: [x, y, z] }
                };
                assert(e3[x - n] == edges[x - n]);
                assert(e3[y - n] == edges[y - n]);
                assert(e3[z - n] == edges[z - n]);
                assert(new_out[4 * t] == out[4 * t]);
                assert(new_out[4 * t + 1] == out[4 * t + 1]);
                assert(new_out[4 * t + 2] == out[4 * t + 2]);
                assert(new_out[4 * t + 3] == out[4 * t + 3]);
                assert(is_midpoint(e3, n, ta, tb, x) && is_midpoint(e3, n, tb, tc, y) && is_midpoint(e3, n, tc, ta, z));
            } else {
                assert(e3[ab - n] == e1[ab - n]);
                assert(e3[bc - n] == e2[bc - n]);
                assert(new_out[4 * t] == quad[0]);
                assert(new_out[4 * t + 1] == quad[1]);
                assert(new_out[4 * t + 2] == quad[2]);
                assert(new_out[4 * t + 3] == quad[3]);
                assert(is_midpoint(e3, n, a, b, ab) && is_midpoint(e3, n, b, c, bc) && is_midpoint(e3, n, c, a, ca));
            }
        }
    }
}

/// Subdividing the triangles of a well-formed mesh (vertices `0 .. n`) splits triangle `t`,
/// for every `t`, into the four triangles `4t .. 4t + 3` of [`subdivided_ok`], all wound as the
/// original; the midpoint vertex of an edge is shared by the triangles on both sides of it, as
/// every edge has one midpoint (the created edges are distinct).
pub proof fn lemma_subdivision_triangles(fs: Seq<Face>, n: int)
    requires
        n >= 0,
        n + 3 * fs.len() < usize::MAX,
        faces_in_range(fs, n),
    ensures
        ({
            let (out, edges, err) = subdivision(fs, n, fs.len() as int);
            &&& err is None
            &&& out.len() == 4 * fs.len()
            &&& forall|i: int, j: int| 0 <= i < j < edges.len() ==> edges[i] != edges[j]
            &&& forall|t: int| 0 <= t < fs.len() ==> #[trigger] subdivided_ok(fs, n, out, edges, t)
        }),
{
    lemma_subdivision_prefix(fs, n, fs.len() as int);
    lemma_subdivision_blocks(fs, n, fs.len() as int);
}

} // verus!

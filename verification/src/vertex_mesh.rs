//! Indexed triangle meshes whose vertices carry their own attributes (position and optional
//! normal, texture coordinate, tangent and colour), as used by the mesh exporters and the
//! mesh modifiers.

use vstd::prelude::*;
use crate::bytes::{FloatBits, u16_le, u32_le, lemma_u32_le_len, push_u16_le, push_u32_le};

verus! {

/// One mesh vertex: a position and the optional attributes that travel with it.
#[derive(Debug, Clone, Copy)]
pub struct Vertex {
    /// Position (x, y, z).
    pub position: [FloatBits; 3],
    /// Normal (x, y, z).
    pub normal: Option<[FloatBits; 3]>,
    /// Texture coordinate (u, v).
    pub uv: Option<[FloatBits; 2]>,
    /// Tangent (x, y, z, handedness).
    pub tangent: Option<[FloatBits; 4]>,
    /// Colour (r, g, b, a).
    pub color: Option<[FloatBits; 4]>,
}

impl Vertex {
    /// A vertex at `position` with no other attribute.
    pub fn new(position: [FloatBits; 3]) -> (v: Vertex)
        ensures
            v == (Vertex { position, normal: None, uv: None, tangent: None, color: None }),
    {
        Vertex { position, normal: None, uv: None, tangent: None, color: None }
    }
}

/// A triangle given by the indices of its three vertices.
#[derive(Debug, Clone, Copy)]
pub struct Face {
    /// The vertex indices, in winding order.
    pub indices: [usize; 3],
}

/// Errors of mesh operations.
#[derive(Debug, Clone, Copy)]
pub enum MeshError {
    /// The index does not name an existing vertex or triangle.
    InvalidIndex(usize),
}

/// Every index of `f` names one of the first `n` vertices.
pub open spec fn face_in_range(f: Face, n: int) -> bool {
    &&& f.indices@[0] < n
    &&& f.indices@[1] < n
    &&& f.indices@[2] < n
}

/// Every face of `fs` refers to one of the first `n` vertices only.
pub open spec fn faces_in_range(fs: Seq<Face>, n: int) -> bool {
    forall|i: int| 0 <= i < fs.len() ==> #[trigger] face_in_range(fs[i], n)
}

/// The three indices of a face as a sequence.
pub open spec fn corners(f: Face) -> Seq<usize> {
    seq![f.indices@[0], f.indices@[1], f.indices@[2]]
}

/// A mesh of vertices and the triangles over them.
#[derive(Debug, Clone)]
pub struct VertexMesh {
    /// The vertices.
    pub vertices: Vec<Vertex>,
    /// The triangles, as indices into `vertices`.
    pub triangles: Vec<Face>,
}

impl VertexMesh {
    /// Every triangle refers to existing vertices only.
    pub open spec fn well_formed(&self) -> bool {
        faces_in_range(self.triangles@, self.vertices@.len() as int)
    }

    /// A mesh without vertices or triangles.
    pub fn new() -> (m: VertexMesh)
        ensures
            m.vertices@.len() == 0,
            m.triangles@.len() == 0,
    {
        VertexMesh { vertices: Vec::new(), triangles: Vec::new() }
    }

    /// Appends a vertex and returns its index.
    pub fn add_vertex(&mut self, v: Vertex) -> (index: usize)
        ensures
            index == old(self).vertices@.len(),
            final(self).vertices@ == old(self).vertices@.push(v),
            final(self).triangles@ == old(self).triangles@,
    {
        let index = self.vertices.len();
        self.vertices.push(v);
        index
    }

    /// Appends the triangle (a, b, c) and returns its index, provided all three indices name
    /// existing vertices; otherwise reports the first index (in the order a, b, c) that does
    /// not, and leaves the mesh unchanged.
    pub fn add_triangle(&mut self, a: usize, b: usize, c: usize) -> (r: Result<usize, MeshError>)
        ensures
            final(self).vertices@ == old(self).vertices@,
            match r {
                Ok(index) => {
                    &&& a < old(self).vertices@.len()
                    &&& b < old(self).vertices@.len()
                    &&& c < old(self).vertices@.len()
                    &&& index == old(self).triangles@.len()
                    &&& final(self).triangles@ == old(self).triangles@.push(Face { indices: [a, b, c] })
                },
                Err(MeshError::InvalidIndex(bad)) => {
                    &&& final(self).triangles@ == old(self).triangles@
                    &&& bad == (if a >= old(self).vertices@.len() {
                        a
                    } else if b >= old(self).vertices@.len() {
                        b
                    } else {
                        c
                    })
                    &&& !(a < old(self).vertices@.len() && b < old(self).vertices@.len() && c
                        < old(self).vertices@.len())
                },
            },
    {
        let n = self.vertices.len();
        if a >= n {
            return Err(MeshError::InvalidIndex(a));
        }
        if b >= n {
            return Err(MeshError::InvalidIndex(b));
        }
        if c >= n {
            return Err(MeshError::InvalidIndex(c));
        }
        let index = self.triangles.len();
        self.triangles.push(Face { indices: [a, b, c] });
        Ok(index)
    }

    /// Whether some vertex has a normal.
    pub fn has_normals(&self) -> (r: bool)
        ensures
            r == exists|i: int| 0 <= i < self.vertices@.len() && (#[trigger] self.vertices@[i]).normal is Some,
    {
        let mut i: usize = 0;
        while i < self.vertices.len()
            invariant
                i <= self.vertices@.len(),
                forall|j: int| 0 <= j < i ==> (#[trigger] self.vertices@[j]).normal is None,
            decreases self.vertices@.len() - i,
        {
            if self.vertices[i].normal.is_some() {
                return true;
            }
            i = i + 1;
        }
        false
    }

    /// Whether some vertex has a texture coordinate.
    pub fn has_uvs(&self) -> (r: bool)
        ensures
            r == exists|i: int| 0 <= i < self.vertices@.len() && (#[trigger] self.vertices@[i]).uv is Some,
    {
        let mut i: usize = 0;
        while i < self.vertices.len()
            invariant
                i <= self.vertices@.len(),
                forall|j: int| 0 <= j < i ==> (#[trigger] self.vertices@[j]).uv is None,
            decreases self.vertices@.len() - i,
        {
            if self.vertices[i].uv.is_some() {
                return true;
            }
            i = i + 1;
        }
        false
    }

    /// Whether some vertex has a tangent.
    pub fn has_tangents(&self) -> (r: bool)
        ensures
            r == exists|i: int| 0 <= i < self.vertices@.len() && (#[trigger] self.vertices@[i]).tangent is Some,
    {
        let mut i: usize = 0;
        while i < self.vertices.len()
            invariant
                i <= self.vertices@.len(),
                forall|j: int| 0 <= j < i ==> (#[trigger] self.vertices@[j]).tangent is None,
            decreases self.vertices@.len() - i,
        {
            if self.vertices[i].tangent.is_some() {
                return true;
            }
            i = i + 1;
        }
        false
    }

    /// Whether some vertex has a colour.
    pub fn has_colors(&self) -> (r: bool)
        ensures
            r == exists|i: int| 0 <= i < self.vertices@.len() && (#[trigger] self.vertices@[i]).color is Some,
    {
        let mut i: usize = 0;
        while i < self.vertices.len()
            invariant
                i <= self.vertices@.len(),
                forall|j: int| 0 <= j < i ==> (#[trigger] self.vertices@[j]).color is None,
            decreases self.vertices@.len() - i,
        {
            if self.vertices[i].color.is_some() {
                return true;
            }
            i = i + 1;
        }
        false
    }
}

/// The bit pattern of the float 1.0.
pub const ONE_BITS: FloatBits = 0x3F80_0000;

/// The positions of the vertices.
pub open spec fn positions_of(vs: Seq<Vertex>) -> Seq<[FloatBits; 3]> {
    vs.map_values(|v: Vertex| v.position)
}

/// The normals of the vertices, `d` for a vertex without one.
pub open spec fn normals_or(vs: Seq<Vertex>, d: [FloatBits; 3]) -> Seq<[FloatBits; 3]> {
    vs.map_values(
        |v: Vertex|
            match v.normal {
                Some(n) => n,
                None => d,
            },
    )
}

/// The texture coordinates of the vertices, `d` for a vertex without one.
pub open spec fn uvs_or(vs: Seq<Vertex>, d: [FloatBits; 2]) -> Seq<[FloatBits; 2]> {
    vs.map_values(
        |v: Vertex|
            match v.uv {
                Some(t) => t,
                None => d,
            },
    )
}

/// The tangents of the vertices, `d` for a vertex without one.
pub open spec fn tangents_or(vs: Seq<Vertex>, d: [FloatBits; 4]) -> Seq<[FloatBits; 4]> {
    vs.map_values(
        |v: Vertex|
            match v.tangent {
                Some(t) => t,
                None => d,
            },
    )
}

/// The colours of the vertices, `d` for a vertex without one.
pub open spec fn colors_or(vs: Seq<Vertex>, d: [FloatBits; 4]) -> Seq<[FloatBits; 4]> {
    vs.map_values(
        |v: Vertex|
            match v.color {
                Some(c) => c,
                None => d,
            },
    )
}

/// The colours of the vertices as opaque RGBA: the red, green and blue of the vertex colour
/// with alpha 1, and opaque white for a vertex without colour.
pub open spec fn opaque_colors(vs: Seq<Vertex>) -> Seq<[FloatBits; 4]> {
    vs.map_values(
        |v: Vertex|
            match v.color {
                Some(c) => [c[0], c[1], c[2], ONE_BITS],
                None => [ONE_BITS, ONE_BITS, ONE_BITS, ONE_BITS],
            },
    )
}

/// The vertex indices of the faces, three per face, in order.
pub open spec fn face_indices(fs: Seq<Face>) -> Seq<usize>
    decreases fs.len(),
{
    if fs.len() == 0 {
        Seq::empty()
    } else {
        face_indices(fs.drop_last()) + corners(fs.last())
    }
}

/// The indices, each cut to 16 bits, as little-endian bytes.
pub open spec fn indices_u16_le(vals: Seq<usize>) -> Seq<u8>
    decreases vals.len(),
{
    if vals.len() == 0 {
        Seq::empty()
    } else {
        indices_u16_le(vals.drop_last()) + u16_le((vals.last() as u16) as int)
    }
}

/// The indices, each cut to 32 bits, as little-endian bytes.
pub open spec fn indices_u32_le(vals: Seq<usize>) -> Seq<u8>
    decreases vals.len(),
{
    if vals.len() == 0 {
        Seq::empty()
    } else {
        indices_u32_le(vals.drop_last()) + u32_le((vals.last() as u32) as int)
    }
}

/// Three indices per face.
pub proof fn lemma_face_indices_len(fs: Seq<Face>)
    ensures
        face_indices(fs).len() == 3 * fs.len(),
    decreases fs.len(),
{
    if fs.len() > 0 {
        lemma_face_indices_len(fs.drop_last());
    }
}

/// Two bytes per 16-bit index, four per 32-bit index.
pub proof fn lemma_indices_le_len(vals: Seq<usize>)
    ensures
        indices_u16_le(vals).len() == 2 * vals.len(),
        indices_u32_le(vals).len() == 4 * vals.len(),
    decreases vals.len(),
{
    broadcast use lemma_u32_le_len;

    if vals.len() > 0 {
        lemma_indices_le_len(vals.drop_last());
    }
}

/// The vertex positions, in order.
pub fn collect_positions(vs: &[Vertex]) -> (out: Vec<[FloatBits; 3]>)
    ensures
        out@ == positions_of(vs@),
{
    let mut out: Vec<[FloatBits; 3]> = Vec::new();
    let mut i: usize = 0;
    while i < vs.len()
        invariant
            i <= vs@.len(),
            out@ == positions_of(vs@.subrange(0, i as int)),
        decreases vs@.len() - i,
    {
        out.push(vs[i].position);
        i = i + 1;
        assert(out@ =~= positions_of(vs@.subrange(0, i as int)));
    }
    assert(vs@.subrange(0, i as int) =~= vs@);
    out
}

/// The vertex normals, `d` where a vertex has none.
pub fn collect_normals(vs: &[Vertex], d: [FloatBits; 3]) -> (out: Vec<[FloatBits; 3]>)
    ensures
        out@ == normals_or(vs@, d),
{
    let mut out: Vec<[FloatBits; 3]> = Vec::new();
    let mut i: usize = 0;
    while i < vs.len()
        invariant
            i <= vs@.len(),
            out@ == normals_or(vs@.subrange(0, i as int), d),
        decreases vs@.len() - i,
    {
        let n = match vs[i].normal {
            Some(n) => n,
            None => d,
        };
        out.push(n);
        i = i + 1;
        assert(out@ =~= normals_or(vs@.subrange(0, i as int), d));
    }
    assert(vs@.subrange(0, i as int) =~= vs@);
    out
}

/// The vertex texture coordinates, `d` where a vertex has none.
pub fn collect_uvs(vs: &[Vertex], d: [FloatBits; 2]) -> (out: Vec<[FloatBits; 2]>)
    ensures
        out@ == uvs_or(vs@, d),
{
    let mut out: Vec<[FloatBits; 2]> = Vec::new();
    let mut i: usize = 0;
    while i < vs.len()
        invariant
            i <= vs@.len(),
            out@ == uvs_or(vs@.subrange(0, i as int), d),
        decreases vs@.len() - i,
    {
        let t = match vs[i].uv {
            Some(t) => t,
            None => d,
        };
        out.push(t);
        i = i + 1;
        assert(out@ =~= uvs_or(vs@.subrange(0, i as int), d));
    }
    assert(vs@.subrange(0, i as int) =~= vs@);
    out
}

/// The vertex tangents, `d` where a vertex has none.
pub fn collect_tangents(vs: &[Vertex], d: [FloatBits; 4]) -> (out: Vec<[FloatBits; 4]>)
    ensures
        out@ == tangents_or(vs@, d),
{
    let mut out: Vec<[FloatBits; 4]> = Vec::new();
    let mut i: usize = 0;
    while i < vs.len()
        invariant
            i <= vs@.len(),
            out@ == tangents_or(vs@.subrange(0, i as int), d),
        decreases vs@.len() - i,
    {
        let t = match vs[i].tangent {
            Some(t) => t,
            None => d,
        };
        out.push(t);
        i = i + 1;
        assert(out@ =~= tangents_or(vs@.subrange(0, i as int), d));
    }
    assert(vs@.subrange(0, i as int) =~= vs@);
    out
}

/// The vertex colours, `d` where a vertex has none.
pub fn collect_colors(vs: &[Vertex], d: [FloatBits; 4]) -> (out: Vec<[FloatBits; 4]>)
    ensures
        out@ == colors_or(vs@, d),
{
    let mut out: Vec<[FloatBits; 4]> = Vec::new();
    let mut i: usize = 0;
    while i < vs.len()
        invariant
            i <= vs@.len(),
            out@ == colors_or(vs@.subrange(0, i as int), d),
        decreases vs@.len() - i,
    {
        let c = match vs[i].color {
            Some(c) => c,
            None => d,
        };
        out.push(c);
        i = i + 1;
        assert(out@ =~= colors_or(vs@.subrange(0, i as int), d));
    }
    assert(vs@.subrange(0, i as int) =~= vs@);
    out
}

/// The vertex colours as opaque RGBA (see [`opaque_colors`]).
pub fn collect_opaque_colors(vs: &[Vertex]) -> (out: Vec<[FloatBits; 4]>)
    ensures
        out@ == opaque_colors(vs@),
{
    let mut out: Vec<[FloatBits; 4]> = Vec::new();
    let mut i: usize = 0;
    while i < vs.len()
        invariant
            i <= vs@.len(),
            out@ == opaque_colors(vs@.subrange(0, i as int)),
        decreases vs@.len() - i,
    {
        let c = match vs[i].color {
            Some(c) => [c[0], c[1], c[2], ONE_BITS],
            None => [ONE_BITS, ONE_BITS, ONE_BITS, ONE_BITS],
        };
        out.push(c);
        i = i + 1;
        assert(out@ =~= opaque_colors(vs@.subrange(0, i as int)));
    }
    assert(vs@.subrange(0, i as int) =~= vs@);
    out
}

/// Appends the vertex indices of all faces as 16-bit (`wide` false) or 32-bit little-endian
/// numbers, each index cut to that width.
pub fn append_face_indices(out: &mut Vec<u8>, fs: &[Face], wide: bool)
    ensures
        final(out)@ == old(out)@ + if wide {
            indices_u32_le(face_indices(fs@))
        } else {
            indices_u16_le(face_indices(fs@))
        },
{
    let ghost start = out@;
    let mut i: usize = 0;
    while i < fs.len()
        invariant
            i <= fs@.len(),
            out@ == start + if wide {
                indices_u32_le(face_indices(fs@.subrange(0, i as int)))
            } else {
                indices_u16_le(face_indices(fs@.subrange(0, i as int)))
            },
        decreases fs@.len() - i,
    {
        let f = fs[i];
        let ghost prefix = fs@.subrange(0, i as int);
        if wide {
            push_u32_le(out, f.indices[0] as u32);
            push_u32_le(out, f.indices[1] as u32);
            push_u32_le(out, f.indices[2] as u32);
        } else {
            push_u16_le(out, f.indices[0] as u16);
            push_u16_le(out, f.indices[1] as u16);
            push_u16_le(out, f.indices[2] as u16);
        }
        i = i + 1;
        proof {
            let cur = fs@.subrange(0, i as int);
            assert(cur.drop_last() =~= prefix);
            let abc = corners(f);
            let pi = face_indices(prefix);
            assert(face_indices(cur) == pi + abc);
            assert((pi + abc).drop_last() =~= pi + seq![f.indices[0], f.indices[1]]);
            assert((pi + seq![f.indices[0], f.indices[1]]).drop_last() =~= pi + seq![f.indices[0]]);
            assert((pi + seq![f.indices[0]]).drop_last() =~= pi);
            let p2 = pi + seq![f.indices[0], f.indices[1]];
            let p1 = pi + seq![f.indices[0]];
            assert(indices_u32_le(pi + abc) == indices_u32_le(p2) + u32_le((f.indices[2] as u32) as int));
            assert(indices_u32_le(p2) == indices_u32_le(p1) + u32_le((f.indices[1] as u32) as int));
            assert(indices_u32_le(p1) == indices_u32_le(pi) + u32_le((f.indices[0] as u32) as int));
            assert(indices_u16_le(pi + abc) == indices_u16_le(p2) + u16_le((f.indices[2] as u16) as int));
            assert(indices_u16_le(p2) == indices_u16_le(p1) + u16_le((f.indices[1] as u16) as int));
            assert(indices_u16_le(p1) == indices_u16_le(pi) + u16_le((f.indices[0] as u16) as int));
        }
        assert(out@ =~= start + if wide {
            indices_u32_le(face_indices(fs@.subrange(0, i as int)))
        } else {
            indices_u16_le(face_indices(fs@.subrange(0, i as int)))
        });
    }
    assert(fs@.subrange(0, i as int) =~= fs@);
}

} // verus!

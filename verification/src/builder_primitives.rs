//! Storing mesh geometry: vertex attributes and triangle indices go to the binary buffer, each
//! block gets a buffer view and an accessor, and a one-primitive mesh refers to the accessors.

use vstd::prelude::*;
use crate::builder::{GltfBuilder, buffer_after_adding, buffers_after_growing};
use crate::bytes::{FloatBits, pad4, u32_le, u32s_le, flatten, append_arrays_le, push_u32_le, lemma_u32s_le_append};
use crate::models::{items, names_distinct, Gltf, BufferView, Accessor, Mesh, Primitive};
use crate::mesh::{
    attribute_entries, attribute_mapping, texcoord_attribute_name, texcoord_entries, texcoord_name,
    lemma_attribute_names_distinct,
};

verus! {

/// A triangle given by the indices of its three vertices.
#[derive(Debug, Clone, Copy, PartialEq, Eq, Structural)]
pub struct Triangle {
    /// First vertex index.
    pub a: u32,
    /// Second vertex index.
    pub b: u32,
    /// Third vertex index.
    pub c: u32,
}

impl Triangle {
    /// The triangle with vertices `a`, `b`, `c`.
    pub fn new(a: u32, b: u32, c: u32) -> (t: Self)
        ensures
            t == (Triangle { a, b, c }),
    {
        Self { a, b, c }
    }
}

/// The vertex indices of the triangles, three per triangle, in order.
pub open spec fn triangle_indices(ts: Seq<Triangle>) -> Seq<u32>
    decreases ts.len(),
{
    if ts.len() == 0 {
        Seq::empty()
    } else {
        triangle_indices(ts.drop_last()) + seq![ts.last().a, ts.last().b, ts.last().c]
    }
}

/// Appends the little-endian encodings of the vertex indices of all triangles.
pub fn append_triangles_le(out: &mut Vec<u8>, ts: &[Triangle])
    ensures
        final(out)@ == old(out)@ + u32s_le(triangle_indices(ts@)),
{
    let ghost start = out@;
    let mut i: usize = 0;
    while i < ts.len()
        invariant
            i <= ts@.len(),
            out@ == start + u32s_le(triangle_indices(ts@.subrange(0, i as int))),
        decreases ts@.len() - i,
    {
        let t = ts[i];
        let ghost prefix = ts@.subrange(0, i as int);
        push_u32_le(out, t.a);
        push_u32_le(out, t.b);
        push_u32_le(out, t.c);
        i = i + 1;
        proof {
            assert(ts@.subrange(0, i as int).drop_last() =~= prefix);
            let abc = seq![t.a, t.b, t.c];
            assert(triangle_indices(ts@.subrange(0, i as int)) == triangle_indices(prefix) + abc);
            lemma_u32s_le_append(triangle_indices(prefix), abc);
            assert(abc.drop_last().drop_last().drop_last() =~= Seq::<u32>::empty());
            assert(abc.drop_last().drop_last() =~= seq![t.a]);
            assert(abc.drop_last() =~= seq![t.a, t.b]);
            reveal_with_fuel(u32s_le, 4);
            assert(u32s_le(abc) =~= u32_le(t.a as int) + u32_le(t.b as int) + u32_le(t.c as int));
        }
        assert(out@ =~= start + u32s_le(triangle_indices(ts@.subrange(0, i as int))));
    }
    assert(ts@.subrange(0, i as int) =~= ts@);
}

/// Describes one block of vertex data: its bytes, the buffer-view target and the accessor
/// reading it.
pub struct Block {
    pub data: Seq<u8>,
    pub target: Option<usize>,
    pub component_type: usize,
    pub count: int,
    pub kind: Seq<char>,
    pub min: Option<Seq<FloatBits>>,
    pub max: Option<Seq<FloatBits>>,
}

/// The values of an optional list.
pub open spec fn opt_seq(v: Option<Vec<FloatBits>>) -> Option<Seq<FloatBits>> {
    match v {
        Some(v) => Some(v@),
        None => None,
    }
}

/// The binary buffer after the blocks are added in order.
pub open spec fn buffer_after_blocks(buffer: Seq<u8>, blocks: Seq<Block>) -> Seq<u8>
    decreases blocks.len(),
{
    if blocks.len() == 0 {
        buffer
    } else {
        buffer_after_adding(buffer_after_blocks(buffer, blocks.drop_last()), blocks.last().data)
    }
}

/// The buffer view of block `i` of `blocks` added after `buffer`.
pub open spec fn block_view(buffer: Seq<u8>, blocks: Seq<Block>, i: int) -> BufferView {
    let before = buffer_after_blocks(buffer, blocks.subrange(0, i));
    BufferView {
        buffer: 0,
        byte_offset: (before.len() + pad4(before.len() as int)) as usize,
        byte_length: blocks[i].data.len() as usize,
        byte_stride: None,
        target: blocks[i].target,
    }
}

/// `a` is the accessor of `block`, reading buffer view `view`.
pub open spec fn block_accessor(a: Accessor, block: Block, view: int) -> bool {
    &&& a.buffer_view == view
    &&& a.component_type == block.component_type
    &&& a.count == block.count
    &&& a.type_@ == block.kind
    &&& a.byte_offset is None
    &&& opt_seq(a.min) == block.min
    &&& opt_seq(a.max) == block.max
    &&& a.normalized is None
}

/// The effect of storing `blocks` in order: each block's bytes are added to the binary buffer,
/// each gets a buffer view of its bytes and an accessor reading that view.
pub open spec fn blocks_added(before: GltfBuilder, after: GltfBuilder, blocks: Seq<Block>) -> bool {
    let views = items(before.gltf.buffer_views);
    let accs = items(before.gltf.accessors);
    &&& after.buffer_data@ == buffer_after_blocks(before.buffer_data@, blocks)
    &&& after.gltf.buffer_views is Some || blocks.len() == 0
    &&& items(after.gltf.buffer_views).len() == views.len() + blocks.len()
    &&& items(after.gltf.buffer_views).subrange(0, views.len() as int) == views
    &&& forall|i: int| 0 <= i < blocks.len() ==> #[trigger] items(after.gltf.buffer_views)[views.len() + i]
        == block_view(before.buffer_data@, blocks, i)
    &&& after.gltf.accessors is Some || blocks.len() == 0
    &&& items(after.gltf.accessors).len() == accs.len() + blocks.len()
    &&& items(after.gltf.accessors).subrange(0, accs.len() as int) == accs
    &&& forall|i: int| 0 <= i < blocks.len() ==> block_accessor(
        #[trigger] items(after.gltf.accessors)[accs.len() + i],
        blocks[i],
        views.len() + i,
    )
    &&& blocks.len() > 0 ==> buffers_after_growing(before.gltf.buffers, after.gltf.buffers, after.buffer_data@.len() as int)
    &&& blocks.len() == 0 ==> after.gltf.buffers == before.gltf.buffers
    &&& after.gltf == (Gltf {
        buffer_views: after.gltf.buffer_views,
        accessors: after.gltf.accessors,
        buffers: after.gltf.buffers,
        ..before.gltf
    })
}

/// The block of vertex positions (three floats each), with their bounds.
pub open spec fn position_block(positions: Seq<[FloatBits; 3]>, bounds: Option<([FloatBits; 3], [FloatBits; 3])>) -> Block {
    Block {
        data: u32s_le(flatten(positions)),
        target: Some(34962usize),
        component_type: 5126,
        count: positions.len() as int,
        kind: "VEC3"@,
        min: match bounds {
            Some(b) => Some(b.0@),
            None => None,
        },
        max: match bounds {
            Some(b) => Some(b.1@),
            None => None,
        },
    }
}

/// The block of triangle vertex indices (unsigned 32-bit).
pub open spec fn index_block(indices: Seq<Triangle>) -> Block {
    Block {
        data: u32s_le(triangle_indices(indices)),
        target: Some(34963usize),
        component_type: 5125,
        count: 3 * indices.len() as int,
        kind: "SCALAR"@,
        min: None,
        max: None,
    }
}

/// The block of vertex normals (three floats each).
pub open spec fn normal_block(normals: Seq<[FloatBits; 3]>) -> Block {
    Block {
        data: u32s_le(flatten(normals)),
        target: Some(34962usize),
        component_type: 5126,
        count: normals.len() as int,
        kind: "VEC3"@,
        min: None,
        max: None,
    }
}

/// The block of one texture-coordinate set (two floats each).
pub open spec fn texcoord_block(set: Seq<[FloatBits; 2]>) -> Block {
    Block {
        data: u32s_le(flatten(set)),
        target: Some(34962usize),
        component_type: 5126,
        count: set.len() as int,
        kind: "VEC2"@,
        min: None,
        max: None,
    }
}

/// The views of the texture-coordinate sets.
pub open spec fn set_views(sets: Seq<Vec<[FloatBits; 2]>>) -> Seq<Seq<[FloatBits; 2]>> {
    sets.map_values(|s: Vec<[FloatBits; 2]>| s@)
}

/// The blocks of a custom mesh, in the order they are stored: positions, indices, normals (if
/// any), then each texture-coordinate set.
pub open spec fn custom_mesh_blocks(
    positions: Seq<[FloatBits; 3]>,
    indices: Seq<Triangle>,
    normals: Option<Seq<[FloatBits; 3]>>,
    texcoords: Seq<Seq<[FloatBits; 2]>>,
    bounds: Option<([FloatBits; 3], [FloatBits; 3])>,
) -> Seq<Block> {
    seq![position_block(positions, bounds), index_block(indices)] + match normals {
        Some(n) => seq![normal_block(n)],
        None => Seq::empty(),
    } + texcoords.map_values(|s: Seq<[FloatBits; 2]>| texcoord_block(s))
}

/// The view of an optional list of normals.
pub open spec fn opt_normals(n: Option<Vec<[FloatBits; 3]>>) -> Option<Seq<[FloatBits; 3]>> {
    match n {
        Some(v) => Some(v@),
        None => None,
    }
}

/// The texture-coordinate sets of an optional list of sets.
pub open spec fn opt_sets(t: Option<Vec<Vec<[FloatBits; 2]>>>) -> Seq<Seq<[FloatBits; 2]>> {
    match t {
        Some(v) => set_views(v@),
        None => Seq::empty(),
    }
}

/// The accessor indices `first`, `first + 1`, ..., `first + n - 1`.
pub open spec fn consecutive(first: int, n: int) -> Seq<usize> {
    Seq::new(n as nat, |i: int| (first + i) as usize)
}

/// The effect of [`GltfBuilder::create_custom_mesh`]: the mesh's blocks are stored (see
/// [`blocks_added`]) and a mesh named `name` is appended whose one primitive reads positions,
/// normals and texture coordinates from the new accessors under the names `POSITION`, `NORMAL`
/// and `TEXCOORD_n`, indices from the index accessor, uses `material` and the default mode.
pub open spec fn custom_mesh_added(
    before: GltfBuilder,
    after: GltfBuilder,
    name: Option<String>,
    positions: Seq<[FloatBits; 3]>,
    indices: Seq<Triangle>,
    normals: Option<Seq<[FloatBits; 3]>>,
    texcoords: Seq<Seq<[FloatBits; 2]>>,
    material: Option<usize>,
    bounds: Option<([FloatBits; 3], [FloatBits; 3])>,
    index: int,
) -> bool {
    let a0 = items(before.gltf.accessors).len() as int;
    let first_texcoord = if normals is Some { a0 + 3 } else { a0 + 2 };
    let meshes = items(after.gltf.meshes);
    let p = meshes[index].primitives@[0];
    let stored = GltfBuilder { gltf: Gltf { meshes: before.gltf.meshes, ..after.gltf }, ..after };
    &&& blocks_added(before, stored, custom_mesh_blocks(positions, indices, normals, texcoords, bounds))
    &&& after.gltf.meshes is Some
    &&& index == items(before.gltf.meshes).len()
    &&& meshes.len() == index + 1
    &&& meshes.subrange(0, index) == items(before.gltf.meshes)
    &&& meshes[index].name == name
    &&& meshes[index].primitives@.len() == 1
    &&& attribute_entries(p.attributes@) == attribute_mapping(
        a0 as usize,
        if normals is Some { Some((a0 + 2) as usize) } else { None },
        consecutive(first_texcoord, texcoords.len() as int),
    )
    &&& names_distinct(attribute_entries(p.attributes@))
    &&& p.indices == Some((a0 + 1) as usize)
    &&& p.material == material
    &&& p.mode is None
}

impl GltfBuilder {
    /// Stores one block: its bytes go to the binary buffer, a buffer view with `target` covers
    /// them and an accessor reads that view; returns the accessor's index.
    fn store_block(
        &mut self,
        data: &[u8],
        target: Option<usize>,
        component_type: usize,
        count: usize,
        kind: &str,
        min: Option<Vec<FloatBits>>,
        max: Option<Vec<FloatBits>>,
        Ghost(done): Ghost<Seq<Block>>,
        Ghost(start): Ghost<GltfBuilder>,
    ) -> (index: usize)
        requires
            blocks_added(start, *old(self), done),
        ensures
            index == items(old(self).gltf.accessors).len(),
            blocks_added(
                start,
                *final(self),
                done.push(
                    Block {
                        data: data@,
                        target,
                        component_type,
                        count: count as int,
                        kind: kind@,
                        min: opt_seq(min),
                        max: opt_seq(max),
                    },
                ),
            ),
    {
        let ghost block = Block {
            data: data@,
            target,
            component_type,
            count: count as int,
            kind: kind@,
            min: opt_seq(min),
            max: opt_seq(max),
        };
        let ghost blocks = done.push(block);
        let ghost before = *self;
        let (offset, length) = self.add_buffer_data(data);
        let view = self.add_buffer_view(offset, length, target);
        let index = self.add_accessor(view, component_type, count, kind.to_string(), None, min, max);
        proof {
            let views0 = items(start.gltf.buffer_views);
            let accs0 = items(start.gltf.accessors);
            assert(blocks.drop_last() =~= done);
            assert(blocks.subrange(0, done.len() as int) =~= done);
            assert(items(self.gltf.buffer_views).subrange(0, views0.len() as int) =~= views0);
            assert(items(self.gltf.accessors).subrange(0, accs0.len() as int) =~= accs0);
            assert forall|i: int| 0 <= i < blocks.len() implies #[trigger] items(
                self.gltf.buffer_views,
            )[views0.len() + i] == block_view(start.buffer_data@, blocks, i) by {
                if i < done.len() {
                    assert(blocks.subrange(0, i) =~= done.subrange(0, i));
                    assert(items(before.gltf.buffer_views)[views0.len() + i] == block_view(start.buffer_data@, done, i));
                } else {
                    assert(blocks.subrange(0, i) =~= done);
                }
            }
            assert forall|i: int| 0 <= i < blocks.len() implies block_accessor(
                #[trigger] items(self.gltf.accessors)[accs0.len() + i],
                blocks[i],
                views0.len() + i,
            ) by {
                if i < done.len() {
                    assert(items(before.gltf.accessors)[accs0.len() + i] == items(self.gltf.accessors)[accs0.len() + i]);
                }
            }
        }
        index
    }

    /// Stores a mesh: the positions (with the accessor bounds `bounds`), the triangle indices
    /// (unsigned 32-bit), the normals if given and each texture-coordinate set if given, in
    /// that order, as blocks of the binary buffer, and appends a mesh with one primitive that
    /// reads them (see [`custom_mesh_added`]). Returns the mesh's index.
    pub fn create_custom_mesh(
        &mut self,
        name: Option<String>,
        positions: &[[FloatBits; 3]],
        indices: &[Triangle],
        normals: Option<Vec<[FloatBits; 3]>>,
        texcoords: Option<Vec<Vec<[FloatBits; 2]>>>,
        material: Option<usize>,
        bounds: Option<([FloatBits; 3], [FloatBits; 3])>,
    ) -> (index: usize)
        requires
            3 * indices@.len() <= usize::MAX,
            items(old(self).gltf.accessors).len() + 3 + opt_sets(texcoords).len() <= usize::MAX,
        ensures
            custom_mesh_added(
                *old(self),
                *final(self),
                name,
                positions@,
                indices@,
                opt_normals(normals),
                opt_sets(texcoords),
                material,
                bounds,
                index as int,
            ),
    {
        let ghost start = *self;
        let ghost a0 = items(start.gltf.accessors).len() as int;
        let ghost all_blocks = custom_mesh_blocks(positions@, indices@, opt_normals(normals), opt_sets(texcoords), bounds);
        proof {
            assert(self.gltf =~= Gltf { buffer_views: self.gltf.buffer_views, accessors: self.gltf.accessors, buffers: self.gltf.buffers, ..start.gltf });
            assert(items(self.gltf.buffer_views).subrange(0, items(start.gltf.buffer_views).len() as int) =~= items(start.gltf.buffer_views));
            assert(items(self.gltf.accessors).subrange(0, a0) =~= items(start.gltf.accessors));
            assert(blocks_added(start, *self, Seq::<Block>::empty()));
        }
        let (min, max) = match bounds {
            Some((lo, hi)) => {
                let mut min_v: Vec<FloatBits> = Vec::new();
                min_v.push(lo[0]);
                min_v.push(lo[1]);
                min_v.push(lo[2]);
                let mut max_v: Vec<FloatBits> = Vec::new();
                max_v.push(hi[0]);
                max_v.push(hi[1]);
                max_v.push(hi[2]);
                assert(min_v@ =~= lo@);
                assert(max_v@ =~= hi@);
                (Some(min_v), Some(max_v))
            },
            None => (None, None),
        };
        let ghost nothing = Seq::<Block>::empty();
        let mut pos_bytes: Vec<u8> = Vec::new();
        append_arrays_le(&mut pos_bytes, positions);
        let ghost min_copy = min;
        let ghost max_copy = max;
        let pos_accessor = self.store_block(
            pos_bytes.as_slice(),
            Some(34962),
            5126,
            positions.len(),
            "VEC3",
            min,
            max,
            Ghost(nothing),
            Ghost(start),
        );
        let ghost after_positions = seq![position_block(positions@, bounds)];
        assert(nothing.push(Block {
            data: pos_bytes@,
            target: Some(34962usize),
            component_type: 5126,
            count: positions.len() as int,
            kind: "VEC3"@,
            min: opt_seq(min_copy),
            max: opt_seq(max_copy),
        }) =~= after_positions);
        assert(blocks_added(start, *self, after_positions));
        let mut idx_bytes: Vec<u8> = Vec::new();
        append_triangles_le(&mut idx_bytes, indices);
        let idx_accessor = self.store_block(
            idx_bytes.as_slice(),
            Some(34963),
            5125,
            indices.len() * 3,
            "SCALAR",
            None,
            None,
            Ghost(after_positions),
            Ghost(start),
        );
        let ghost head = seq![position_block(positions@, bounds), index_block(indices@)];
        assert(after_positions.push(Block {
            data: idx_bytes@,
            target: Some(34963usize),
            component_type: 5125,
            count: (indices.len() * 3) as int,
            kind: "SCALAR"@,
            min: opt_seq(None),
            max: opt_seq(None),
        }) =~= head);
        assert(blocks_added(start, *self, head));
        let mut attributes: Vec<(String, usize)> = Vec::new();
        attributes.push((String::from_str("POSITION"), pos_accessor));
        let ghost normal_blocks: Seq<Block> = match opt_normals(normals) {
            Some(n) => seq![normal_block(n)],
            None => Seq::empty(),
        };
        match normals {
            Some(normal_data) => {
                let mut norm_bytes: Vec<u8> = Vec::new();
                append_arrays_le(&mut norm_bytes, normal_data.as_slice());
                let normal_accessor = self.store_block(
                    norm_bytes.as_slice(),
                    Some(34962),
                    5126,
                    normal_data.len(),
                    "VEC3",
                    None,
                    None,
                    Ghost(head),
                    Ghost(start),
                );
                attributes.push((String::from_str("NORMAL"), normal_accessor));
                assert(head.push(Block {
                    data: norm_bytes@,
                    target: Some(34962usize),
                    component_type: 5126,
                    count: normal_data.len() as int,
                    kind: "VEC3"@,
                    min: opt_seq(None),
                    max: opt_seq(None),
                }) =~= head + normal_blocks);
            },
            None => {
                assert(head =~= head + normal_blocks);
            },
        }
        let ghost done0 = head + normal_blocks;
        assert(blocks_added(start, *self, done0));
        let ghost first_texcoord = if normals is Some { a0 + 3 } else { a0 + 2 };
        let ghost attr_head = attribute_entries(attributes@);
        assert(attr_head =~= seq![("POSITION"@, a0 as usize)] + match (if normals is Some { Some((a0 + 2) as usize) } else { None }) {
            Some(n) => seq![("NORMAL"@, n)],
            None => Seq::<(Seq<char>, usize)>::empty(),
        });
        let ghost sets = opt_sets(texcoords);
        assert(done0 + sets.subrange(0, 0).map_values(|s: Seq<[FloatBits; 2]>| texcoord_block(s)) =~= done0);
        assert(texcoord_entries(consecutive(first_texcoord, 0)) =~= Seq::<(Seq<char>, usize)>::empty());
        assert(attribute_entries(attributes@) =~= attr_head + texcoord_entries(consecutive(first_texcoord, 0)));
        match texcoords {
            Some(texcoord_sets) => {
                let mut i: usize = 0;
                while i < texcoord_sets.len()
                    invariant
                        i <= texcoord_sets@.len(),
                        sets == set_views(texcoord_sets@),
                        first_texcoord == a0 + done0.len(),
                        a0 + 3 + sets.len() <= usize::MAX,
                        a0 == items(start.gltf.accessors).len(),
                        blocks_added(start, *self, done0 + sets.subrange(0, i as int).map_values(|s: Seq<[FloatBits; 2]>| texcoord_block(s))),
                        attribute_entries(attributes@) == attr_head + texcoord_entries(consecutive(first_texcoord, i as int)),
                        self.gltf.meshes == start.gltf.meshes,
                    decreases texcoord_sets@.len() - i,
                {
                    let ghost done = done0 + sets.subrange(0, i as int).map_values(|s: Seq<[FloatBits; 2]>| texcoord_block(s));
                    let set = &texcoord_sets[i];
                    let mut tc_bytes: Vec<u8> = Vec::new();
                    append_arrays_le(&mut tc_bytes, set.as_slice());
                    let tc_accessor = self.store_block(
                        tc_bytes.as_slice(),
                        Some(34962),
                        5126,
                        set.len(),
                        "VEC2",
                        None,
                        None,
                        Ghost(done),
                        Ghost(start),
                    );
                    let name_i = texcoord_attribute_name(i);
                    let ghost before_attrs = attributes@;
                    attributes.push((name_i, tc_accessor));
                    proof {
                        assert(done.len() == done0.len() + i);
                        assert(tc_accessor == first_texcoord + i);
                        let entry = (texcoord_name(i as nat), tc_accessor);
                        assert(attribute_entries(attributes@) =~= attribute_entries(before_attrs).push(entry));
                        assert(texcoord_entries(consecutive(first_texcoord, i + 1)) =~= texcoord_entries(consecutive(first_texcoord, i as int)).push(entry));
                        assert(sets[i as int] == set@);
                        assert(done0 + sets.subrange(0, i + 1).map_values(|s: Seq<[FloatBits; 2]>| texcoord_block(s)) =~= done.push(texcoord_block(set@)));
                    }
                    i = i + 1;
                }
                assert(sets.subrange(0, i as int) =~= sets);
            },
            None => {
                assert(texcoord_entries(consecutive(first_texcoord, 0)) =~= Seq::<(Seq<char>, usize)>::empty());
                assert(attribute_entries(attributes@) =~= attr_head + texcoord_entries(consecutive(first_texcoord, 0)));
                assert(sets.subrange(0, 0) =~= sets);
            },
        }
        proof {
            assert(done0 + sets.map_values(|s: Seq<[FloatBits; 2]>| texcoord_block(s)) =~= all_blocks);
            lemma_attribute_names_distinct(
                a0 as usize,
                if normals is Some { Some((a0 + 2) as usize) } else { None },
                consecutive(first_texcoord, sets.len() as int),
            );
        }
        let ghost stored = *self;
        let primitive = Primitive { attributes, indices: Some(idx_accessor), material, mode: None };
        let mut primitives: Vec<Primitive> = Vec::new();
        primitives.push(primitive);
        let index = self.add_mesh(name, primitives);
        proof {
            assert(items(self.gltf.meshes).subrange(0, index as int) =~= items(start.gltf.meshes));
            assert(stored == GltfBuilder { gltf: Gltf { meshes: start.gltf.meshes, ..self.gltf }, ..*self });
        }
        index
    }

    /// [`GltfBuilder::create_custom_mesh`] with at most one texture-coordinate set.
    pub fn create_simple_mesh(
        &mut self,
        name: Option<String>,
        positions: &[[FloatBits; 3]],
        indices: &[Triangle],
        normals: Option<Vec<[FloatBits; 3]>>,
        texcoords: Option<Vec<[FloatBits; 2]>>,
        material: Option<usize>,
        bounds: Option<([FloatBits; 3], [FloatBits; 3])>,
    ) -> (index: usize)
        requires
            3 * indices@.len() <= usize::MAX,
            items(old(self).gltf.accessors).len() + 4 <= usize::MAX,
        ensures
            custom_mesh_added(
                *old(self),
                *final(self),
                name,
                positions@,
                indices@,
                opt_normals(normals),
                match texcoords {
                    Some(uvs) => seq![uvs@],
                    None => Seq::empty(),
                },
                material,
                bounds,
                index as int,
            ),
    {
        let texcoord_sets = match texcoords {
            Some(uvs) => {
                let mut sets = Vec::new();
                sets.push(uvs);
                Some(sets)
            },
            None => None,
        };
        proof {
            assert(opt_sets(texcoord_sets) =~= match texcoords {
                Some(uvs) => seq![uvs@],
                None => Seq::<Seq<[FloatBits; 2]>>::empty(),
            });
        }
        self.create_custom_mesh(name, positions, indices, normals, texcoord_sets, material, bounds)
    }
}

/// The triangles made of consecutive index triples of `raw` (a trailing incomplete triple is
/// dropped), each index widened to 32 bits.
pub open spec fn triangles_of(raw: Seq<u16>) -> Seq<Triangle> {
    Seq::new(
        raw.len() / 3,
        |i: int| Triangle { a: raw[3 * i] as u32, b: raw[3 * i + 1] as u32, c: raw[3 * i + 2] as u32 },
    )
}

/// Groups the indices produced by the shape generators into triangles (see [`triangles_of`]).
pub fn triangles_from_indices(raw: &[u16]) -> (ts: Vec<Triangle>)
    ensures
        ts@ == triangles_of(raw@),
{
    let n = raw.len() / 3;
    let mut ts: Vec<Triangle> = Vec::new();
    let mut i: usize = 0;
    let mut base: usize = 0;
    while i < n
        invariant
            i <= n,
            n == raw@.len() / 3,
            base == 3 * i,
            ts@.len() == i,
            forall|k: int| 0 <= k < i ==> #[trigger] ts@[k] == triangles_of(raw@)[k],
        decreases n - i,
    {
        assert(3 * i + 2 < raw@.len()) by (nonlinear_arith)
            requires
                i < n,
                n == raw@.len() / 3,
        ;
        ts.push(Triangle { a: raw[base] as u32, b: raw[base + 1] as u32, c: raw[base + 2] as u32 });
        i = i + 1;
        base = base + 3;
    }
    assert(ts@ =~= triangles_of(raw@));
    ts
}

/// The twelve triangles of a cube whose six faces have four vertices each (face f uses
/// vertices 4f to 4f + 3): triangles (4f, 4f + 1, 4f + 2) and (4f, 4f + 2, 4f + 3).
pub open spec fn cube_face_triangles_spec() -> Seq<Triangle> {
    Seq::new(
        12,
        |i: int| {
            let f = i / 2;
            if i % 2 == 0 {
                Triangle { a: (4 * f) as u32, b: (4 * f + 1) as u32, c: (4 * f + 2) as u32 }
            } else {
                Triangle { a: (4 * f) as u32, b: (4 * f + 2) as u32, c: (4 * f + 3) as u32 }
            }
        },
    )
}

/// The triangles of the twenty-four-vertex cube (see [`cube_face_triangles_spec`]).
pub fn cube_face_triangles() -> (ts: Vec<Triangle>)
    ensures
        ts@ == cube_face_triangles_spec(),
{
    let ts = vec![
        Triangle { a: 0, b: 1, c: 2 }, Triangle { a: 0, b: 2, c: 3 },
        Triangle { a: 4, b: 5, c: 6 }, Triangle { a: 4, b: 6, c: 7 },
        Triangle { a: 8, b: 9, c: 10 }, Triangle { a: 8, b: 10, c: 11 },
        Triangle { a: 12, b: 13, c: 14 }, Triangle { a: 12, b: 14, c: 15 },
        Triangle { a: 16, b: 17, c: 18 }, Triangle { a: 16, b: 18, c: 19 },
        Triangle { a: 20, b: 21, c: 22 }, Triangle { a: 20, b: 22, c: 23 },
    ];
    assert(ts@ =~= cube_face_triangles_spec());
    ts
}


/// The bit pattern of -1.0.
pub const MINUS_ONE_BITS: FloatBits = 0xBF80_0000;

/// The bit pattern of `-x`: negation flips the sign bit.
pub open spec fn neg_bits(x: FloatBits) -> FloatBits {
    x ^ 0x8000_0000u32
}

/// The 24 vertices of the box with half edge `h`, four per face (front, back, top, bottom,
/// right, left), so that every face has its own normals.
pub open spec fn box_face_positions(h: FloatBits) -> Seq<[FloatBits; 3]> {
    let n = neg_bits(h);
    seq![
        [n, n, h], [h, n, h], [h, h, h], [n, h, h],
        [h, n, n], [n, n, n], [n, h, n], [h, h, n],
        [n, h, h], [h, h, h], [h, h, n], [n, h, n],
        [h, n, h], [n, n, h], [n, n, n], [h, n, n],
        [h, n, h], [h, n, n], [h, h, n], [h, h, h],
        [n, n, n], [n, n, h], [n, h, h], [n, h, n],
    ]
}

/// The normal of each of the 24 box vertices: the normal of its face.
pub open spec fn box_face_normals() -> Seq<[FloatBits; 3]> {
    let o = 0x3F80_0000u32;
    let m = MINUS_ONE_BITS;
    Seq::new(
        24,
        |i: int|
            if i < 4 {
                [0u32, 0u32, o]
            } else if i < 8 {
                [0u32, 0u32, m]
            } else if i < 12 {
                [0u32, o, 0u32]
            } else if i < 16 {
                [0u32, m, 0u32]
            } else if i < 20 {
                [o, 0u32, 0u32]
            } else {
                [m, 0u32, 0u32]
            },
    )
}

/// The texture coordinates of the 24 box vertices: (0, 1), (1, 1), (1, 0), (0, 0) on every
/// face.
pub open spec fn box_face_uvs() -> Seq<[FloatBits; 2]> {
    let o = 0x3F80_0000u32;
    Seq::new(
        24,
        |i: int|
            if i % 4 == 0 {
                [0u32, o]
            } else if i % 4 == 1 {
                [o, o]
            } else if i % 4 == 2 {
                [o, 0u32]
            } else {
                [0u32, 0u32]
            },
    )
}

/// `n` is a unit axis vector (one component +1 or -1, the others 0) and `p` lies on the face
/// of the box with half edge `h` that `n` points out of.
pub open spec fn outward_unit_normal(p: [FloatBits; 3], n: [FloatBits; 3], h: FloatBits) -> bool {
    exists|k: int|
        0 <= k < 3 && (forall|j: int| 0 <= j < 3 && j != k ==> n[j] == 0u32) && (
        (n[k] == 0x3F80_0000u32 && p[k] == h) || (n[k] == MINUS_ONE_BITS && p[k] == neg_bits(h)))
}

/// Corner `v` of a box triangle whose first corner is `first` has the same normal as `first`,
/// and that normal points out of the face `v` lies on.
pub open spec fn box_corner_on_face(first: u32, v: u32, h: FloatBits) -> bool {
    &&& box_face_normals()[v as int] == box_face_normals()[first as int]
    &&& outward_unit_normal(box_face_positions(h)[v as int], box_face_normals()[v as int], h)
}

/// Every triangle of the box that [`GltfBuilder::create_box`] and
/// [`GltfBuilder::create_box_with_material`] add has one normal at all three corners, and that
/// normal is the unit outward normal of the face the corners lie on.
pub proof fn lemma_box_face_normals(h: FloatBits)
    ensures
        forall|t: int|
            0 <= t < 12 ==> {
                let tri = #[trigger] cube_face_triangles_spec()[t];
                &&& box_corner_on_face(tri.a, tri.a, h)
                &&& box_corner_on_face(tri.a, tri.b, h)
                &&& box_corner_on_face(tri.a, tri.c, h)
            },
{
    assert forall|t: int| 0 <= t < 12 implies {
        let tri = #[trigger] cube_face_triangles_spec()[t];
        &&& box_corner_on_face(tri.a, tri.a, h)
        &&& box_corner_on_face(tri.a, tri.b, h)
        &&& box_corner_on_face(tri.a, tri.c, h)
    } by {
        let tri = cube_face_triangles_spec()[t];
        let f = t / 2;
        let k: int = if f < 2 { 2 } else if f < 4 { 1 } else { 0 };
        assert forall|v: u32| 4 * f <= v < 4 * f + 4 implies box_corner_on_face(tri.a, v, h) by {
            let p = box_face_positions(h)[v as int];
            let n = box_face_normals()[v as int];
            assert(p[k] == (if f % 2 == 0 { h } else { neg_bits(h) }));
            assert(forall|j: int| 0 <= j < 3 && j != k ==> n[j] == 0u32);
            assert(outward_unit_normal(p, n, h));
        }
    }
}

/// The coordinate of a box corner in units of the half edge: +1 for `h`, -1 otherwise (the
/// corners' coordinates are `h` and its negation).
pub open spec fn box_coord(b: FloatBits, h: FloatBits) -> int {
    if b == h { 1 } else { -1 }
}

/// The component of a unit axis normal: +1 for 1.0, -1 for -1.0, 0 otherwise.
pub open spec fn unit_component(b: FloatBits) -> int {
    if b == 0x3F80_0000u32 { 1 } else if b == MINUS_ONE_BITS { -1 } else { 0 }
}

/// Component `k` of the cross product (q - p) x (r - p) of box corners, in units of the half
/// edge.
pub open spec fn box_cross(p: [FloatBits; 3], q: [FloatBits; 3], r: [FloatBits; 3], h: FloatBits, k: int) -> int {
    let u0 = box_coord(q[0], h) - box_coord(p[0], h);
    let u1 = box_coord(q[1], h) - box_coord(p[1], h);
    let u2 = box_coord(q[2], h) - box_coord(p[2], h);
    let v0 = box_coord(r[0], h) - box_coord(p[0], h);
    let v1 = box_coord(r[1], h) - box_coord(p[1], h);
    let v2 = box_coord(r[2], h) - box_coord(p[2], h);
    if k == 0 {
        u1 * v2 - u2 * v1
    } else if k == 1 {
        u2 * v0 - u0 * v2
    } else {
        u0 * v1 - u1 * v0
    }
}

/// Component `k` of the cross product of the edges (b - a) x (c - a) of box triangle `t` is
/// four times (twice the triangle's area, in units of the half edge) component `k` of the
/// normal at its first corner.
pub open spec fn box_winding_ok(h: FloatBits, t: int, k: int) -> bool {
    let tri = cube_face_triangles_spec()[t];
    let ps = box_face_positions(h);
    box_cross(ps[tri.a as int], ps[tri.b as int], ps[tri.c as int], h, k) == 4 * unit_component(
        box_face_normals()[tri.a as int][k],
    )
}

/// The winding of one box triangle.
proof fn lemma_box_winding_at(h: FloatBits, t: int)
    requires
        neg_bits(h) != h,
        0 <= t < 12,
    ensures
        box_winding_ok(h, t, 0),
        box_winding_ok(h, t, 1),
        box_winding_ok(h, t, 2),
{
    broadcast use vstd::array::group_array_axioms;

    let n = neg_bits(h);
    let ps = box_face_positions(h);
    let ns = box_face_normals();
    assert(MINUS_ONE_BITS != 0x3F80_0000u32);
    let tri = cube_face_triangles_spec()[t];
    let pa = ps[tri.a as int];
    let pb = ps[tri.b as int];
    let pc = ps[tri.c as int];
    let na = ns[tri.a as int];
    assert(box_coord(h, h) == 1 && box_coord(n, h) == -1);
    if t == 0 {
        assert(pa == [n, n, h] && pb == [h, n, h] && pc == [h, h, h] && na == [0u32, 0u32, 0x3F80_0000u32]);
    } else if t == 1 {
        assert(pa == [n, n, h] && pb == [h, h, h] && pc == [n, h, h] && na == [0u32, 0u32, 0x3F80_0000u32]);
    } else if t == 2 {
        assert(pa == [h, n, n] && pb == [n, n, n] && pc == [n, h, n] && na == [0u32, 0u32, MINUS_ONE_BITS]);
    } else if t == 3 {
        assert(pa == [h, n, n] && pb == [n, h, n] && pc == [h, h, n] && na == [0u32, 0u32, MINUS_ONE_BITS]);
    } else if t == 4 {
        assert(pa == [n, h, h] && pb == [h, h, h] && pc == [h, h, n] && na == [0u32, 0x3F80_0000u32, 0u32]);
    } else if t == 5 {
        assert(pa == [n, h, h] && pb == [h, h, n] && pc == [n, h, n] && na == [0u32, 0x3F80_0000u32, 0u32]);
    } else if t == 6 {
        assert(pa == [h, n, h] && pb == [n, n, h] && pc == [n, n, n] && na == [0u32, MINUS_ONE_BITS, 0u32]);
    } else if t == 7 {
        assert(pa == [h, n, h] && pb == [n, n, n] && pc == [h, n, n] && na == [0u32, MINUS_ONE_BITS, 0u32]);
    } else if t == 8 {
        assert(pa == [h, n, h] && pb == [h, n, n] && pc == [h, h, n] && na == [0x3F80_0000u32, 0u32, 0u32]);
    } else if t == 9 {
        assert(pa == [h, n, h] && pb == [h, h, n] && pc == [h, h, h] && na == [0x3F80_0000u32, 0u32, 0u32]);
    } else if t == 10 {
        assert(pa == [n, n, n] && pb == [n, n, h] && pc == [n, h, h] && na == [MINUS_ONE_BITS, 0u32, 0u32]);
    } else {
        assert(pa == [n, n, n] && pb == [n, h, h] && pc == [n, h, n] && na == [MINUS_ONE_BITS, 0u32, 0u32]);
    }
}

/// Every face `f` of the box that [`GltfBuilder::create_box`] and
/// [`GltfBuilder::create_box_with_material`] add is split along the diagonal from its first
/// to its third vertex into triangles (4f, 4f + 1, 4f + 2) and (4f, 4f + 2, 4f + 3), and every
/// triangle is wound counter-clockwise seen from outside: the cross product of its edges
/// (b - a) x (c - a) is the face's outward normal scaled by twice the triangle's area.
pub proof fn lemma_box_winding(h: FloatBits)
    ensures
        cube_face_triangles_spec().len() == 12,
        forall|f: int|
            0 <= f < 6 ==> #[trigger] cube_face_triangles_spec()[2 * f] == (Triangle {
                a: (4 * f) as u32,
                b: (4 * f + 1) as u32,
                c: (4 * f + 2) as u32,
            }) && cube_face_triangles_spec()[2 * f + 1] == (Triangle {
                a: (4 * f) as u32,
                b: (4 * f + 2) as u32,
                c: (4 * f + 3) as u32,
            }),
        forall|t: int, k: int| 0 <= t < 12 && 0 <= k < 3 ==> #[trigger] box_winding_ok(h, t, k),
{
    assert(neg_bits(h) != h) by (bit_vector);
    assert(MINUS_ONE_BITS != 0x3F80_0000u32);
    assert forall|t: int, k: int| 0 <= t < 12 && 0 <= k < 3 implies #[trigger] box_winding_ok(h, t, k) by {
        lemma_box_winding_at(h, t);
    }
}

impl GltfBuilder {
    /// Adds a box of half edge `half_size` (the bit pattern of half the edge length) centred
    /// at the origin, with no material: 24 vertices, four per face with the face's outward
    /// normal (see [`box_face_positions`], [`box_face_normals`], [`box_face_uvs`]), and two
    /// triangles per face; `bounds` are the smallest and largest corner coordinates. Returns
    /// the mesh index.
    pub fn create_box(&mut self, half_size: FloatBits, bounds: ([FloatBits; 3], [FloatBits; 3])) -> (index: usize)
        requires
            items(old(self).gltf.accessors).len() + 4 <= usize::MAX,
        ensures
            custom_mesh_added(
                *old(self),
                *final(self),
                None,
                box_face_positions(half_size),
                cube_face_triangles_spec(),
                Some(box_face_normals()),
                seq![box_face_uvs()],
                None,
                Some(bounds),
                index as int,
            ),
    {
        self.create_box_with_material(half_size, bounds, None)
    }

    /// Adds a box of half edge `half_size` centred at the origin with `material`: 24 vertices,
    /// four per face with the face's normal (see [`box_face_positions`], [`box_face_normals`],
    /// [`box_face_uvs`]), and two triangles per face; `bounds` are the smallest and largest
    /// corner coordinates. Returns the mesh index.
    pub fn create_box_with_material(
        &mut self,
        half_size: FloatBits,
        bounds: ([FloatBits; 3], [FloatBits; 3]),
        material: Option<usize>,
    ) -> (index: usize)
        requires
            items(old(self).gltf.accessors).len() + 4 <= usize::MAX,
        ensures
            custom_mesh_added(
                *old(self),
                *final(self),
                None,
                box_face_positions(half_size),
                cube_face_triangles_spec(),
                Some(box_face_normals()),
                seq![box_face_uvs()],
                material,
                Some(bounds),
                index as int,
            ),
    {
        let h = half_size;
        let n = half_size ^ 0x8000_0000u32;
        let positions = vec![
            [n, n, h], [h, n, h], [h, h, h], [n, h, h],
            [h, n, n], [n, n, n], [n, h, n], [h, h, n],
            [n, h, h], [h, h, h], [h, h, n], [n, h, n],
            [h, n, h], [n, n, h], [n, n, n], [h, n, n],
            [h, n, h], [h, n, n], [h, h, n], [h, h, h],
            [n, n, n], [n, n, h], [n, h, h], [n, h, n],
        ];
        let one: FloatBits = 0x3F80_0000;
        let m = MINUS_ONE_BITS;
        let front = [0u32, 0u32, one];
        let back = [0u32, 0u32, m];
        let top = [0u32, one, 0u32];
        let bottom = [0u32, m, 0u32];
        let right = [one, 0u32, 0u32];
        let left = [m, 0u32, 0u32];
        let normals = vec![
            front, front, front, front, back, back, back, back,
            top, top, top, top, bottom, bottom, bottom, bottom,
            right, right, right, right, left, left, left, left,
        ];
        let a = [0u32, one];
        let b = [one, one];
        let c = [one, 0u32];
        let d = [0u32, 0u32];
        let uvs = vec![a, b, c, d, a, b, c, d, a, b, c, d, a, b, c, d, a, b, c, d, a, b, c, d];
        let indices = cube_face_triangles();
        assert(positions@ =~= box_face_positions(half_size));
        assert(normals@ =~= box_face_normals());
        assert(uvs@ =~= box_face_uvs());
        self.create_simple_mesh(None, positions.as_slice(), indices.as_slice(), Some(normals), Some(uvs), material, Some(bounds))
    }
}

} // verus!

//! `GltfBuilder`: assembles a glTF document object by object and lays its binary data out in
//! one buffer.
//!
//! Every `add_*` method appends one object to the matching top-level array of the document and
//! returns the index the object has there; nothing else in the document changes.

use vstd::prelude::*;
use crate::error::{GltfError, Result};
use crate::models::{
    items, push_item, Gltf, Asset, Scene, Node, Mesh, Primitive, Accessor, BufferView, Buffer,
};
use crate::bytes::{FloatBits, pad4, fill, append_bytes, append_fill, padding_for};
use crate::glb::{document_glb, document_glb_bytes};

verus! {

/// Builds a glTF document and its binary buffer.
pub struct GltfBuilder {
    /// The document under construction.
    pub gltf: Gltf,
    /// The binary buffer (buffer 0 of the document) that accessors and images point into.
    pub buffer_data: Vec<u8>,
}

/// The children a node has after `child` is added to `children`: `child` is appended unless
/// it is already there.
pub open spec fn children_after_adding(children: Option<Vec<usize>>, child: usize) -> Seq<usize> {
    match children {
        Some(c) => if c@.contains(child) {
            c@
        } else {
            c@.push(child)
        },
        None => seq![child],
    }
}

/// The bytes of the buffer after `data` is added: zeros up to the next multiple of four,
/// then `data`.
pub open spec fn buffer_after_adding(buffer: Seq<u8>, data: Seq<u8>) -> Seq<u8> {
    buffer + fill(0, pad4(buffer.len() as int)) + data
}

/// The buffer list after the buffer data has grown to `len` bytes: buffer 0 records the new
/// length; an absent or empty list stays as it was.
pub open spec fn buffers_after_growing(old: Option<Vec<Buffer>>, new: Option<Vec<Buffer>>, len: int) -> bool {
    match old {
        Some(b) => if b@.len() > 0 {
            &&& new is Some
            &&& items(new).len() == b@.len()
            &&& items(new)[0].byte_length == len
            &&& items(new)[0].uri == b@[0].uri
            &&& forall|i: int| 1 <= i < b@.len() ==> items(new)[i] == b@[i]
        } else {
            new == old
        },
        None => new == old,
    }
}

impl GltfBuilder {
    /// Buffer 0, when the document lists one, records the length of the binary data.
    pub open spec fn buffer_length_recorded(&self) -> bool {
        items(self.gltf.buffers).len() > 0 ==> items(self.gltf.buffers)[0].byte_length
            == self.buffer_data@.len()
    }

    /// Creates a builder holding a document with asset version "2.0" and this library as
    /// generator, empty scene, node, mesh, accessor and buffer-view arrays, and one buffer of
    /// length 0 without URI (the buffer embedded in the GLB file). The binary data is empty.
    pub fn new() -> (b: Self)
        ensures
            b.gltf.asset.version@ == "2.0"@,
            b.gltf.asset.generator matches Some(g) && g@ == "Rust glTF Export Library"@,
            b.gltf.asset.copyright is None,
            b.gltf.scene is None,
            b.gltf.scenes is Some && items(b.gltf.scenes).len() == 0,
            b.gltf.nodes is Some && items(b.gltf.nodes).len() == 0,
            b.gltf.meshes is Some && items(b.gltf.meshes).len() == 0,
            b.gltf.accessors is Some && items(b.gltf.accessors).len() == 0,
            b.gltf.buffer_views is Some && items(b.gltf.buffer_views).len() == 0,
            b.gltf.buffers is Some && items(b.gltf.buffers).len() == 1,
            items(b.gltf.buffers)[0].byte_length == 0,
            items(b.gltf.buffers)[0].uri is None,
            b.gltf.materials is None,
            b.gltf.textures is None,
            b.gltf.images is None,
            b.gltf.samplers is None,
            b.gltf.animations is None,
            b.gltf.extensions is None,
            b.gltf.extensions_used is None,
            b.gltf.extensions_required is None,
            b.gltf.extras is None,
            b.buffer_data@.len() == 0,
            b.buffer_length_recorded(),
    {
        let mut gltf = Gltf::default();
        let asset = Asset {
            version: "2.0".to_string(),
            generator: Some("Rust glTF Export Library".to_string()),
            copyright: None,
        };
        gltf.asset = asset;
        gltf.scenes = Some(Vec::new());
        gltf.nodes = Some(Vec::new());
        gltf.meshes = Some(Vec::new());
        gltf.accessors = Some(Vec::new());
        gltf.buffer_views = Some(Vec::new());
        gltf.buffers = Some(Vec::new());
        let buffer = Buffer { byte_length: 0, uri: None };
        push_item(&mut gltf.buffers, buffer);
        GltfBuilder { gltf, buffer_data: Vec::new() }
    }

    /// Appends a scene and returns its index. The first scene added becomes the default
    /// scene when no default scene is set (and whenever the scene array was absent).
    pub fn add_scene(&mut self, name: Option<String>, nodes: Option<Vec<usize>>) -> (index: usize)
        ensures
            index == items(old(self).gltf.scenes).len(),
            final(self).gltf.scenes is Some,
            items(final(self).gltf.scenes) == items(old(self).gltf.scenes).push(
                Scene { name, nodes },
            ),
            final(self).gltf.scene == if old(self).gltf.scenes is Some
                && old(self).gltf.scene is Some {
                old(self).gltf.scene
            } else {
                Some(0usize)
            },
            final(self).gltf == (Gltf {
                scenes: final(self).gltf.scenes,
                scene: final(self).gltf.scene,
                ..old(self).gltf
            }),
            final(self).buffer_data == old(self).buffer_data,
    {
        let scene = Scene { name, nodes };
        if self.gltf.scenes.is_some() {
            let index = push_item(&mut self.gltf.scenes, scene);
            if self.gltf.scene.is_none() {
                self.gltf.scene = Some(0);
            }
            index
        } else {
            push_item(&mut self.gltf.scenes, scene);
            self.gltf.scene = Some(0);
            0
        }
    }

    /// Appends a node without children and returns its index.
    pub fn add_node(
        &mut self,
        name: Option<String>,
        mesh: Option<usize>,
        translation: Option<[FloatBits; 3]>,
        rotation: Option<[FloatBits; 4]>,
        scale: Option<[FloatBits; 3]>,
    ) -> (index: usize)
        ensures
            index == items(old(self).gltf.nodes).len(),
            final(self).gltf.nodes is Some,
            items(final(self).gltf.nodes) == items(old(self).gltf.nodes).push(
                Node { name, mesh, translation, rotation, scale, matrix: None, children: None },
            ),
            final(self).gltf == (Gltf { nodes: final(self).gltf.nodes, ..old(self).gltf }),
            final(self).buffer_data == old(self).buffer_data,
    {
        let node = Node { name, mesh, translation, rotation, scale, matrix: None, children: None };
        push_item(&mut self.gltf.nodes, node)
    }

    /// Appends a node with the given children and returns its index.
    pub fn add_node_with_children(
        &mut self,
        name: Option<String>,
        mesh: Option<usize>,
        translation: Option<[FloatBits; 3]>,
        rotation: Option<[FloatBits; 4]>,
        scale: Option<[FloatBits; 3]>,
        children: Vec<usize>,
    ) -> (index: usize)
        ensures
            index == items(old(self).gltf.nodes).len(),
            final(self).gltf.nodes is Some,
            items(final(self).gltf.nodes) == items(old(self).gltf.nodes).push(
                Node {
                    name,
                    mesh,
                    translation,
                    rotation,
                    scale,
                    matrix: None,
                    children: Some(children),
                },
            ),
            final(self).gltf == (Gltf { nodes: final(self).gltf.nodes, ..old(self).gltf }),
            final(self).buffer_data == old(self).buffer_data,
    {
        let node = Node {
            name,
            mesh,
            translation,
            rotation,
            scale,
            matrix: None,
            children: Some(children),
        };
        push_item(&mut self.gltf.nodes, node)
    }

    /// Makes node `child_index` a child of node `parent_index` (once: a child already listed is
    /// not listed again). Fails with `InvalidData` when the document has no node array and
    /// with `InvalidIndex` when either index is out of range; the document is then unchanged.
    pub fn add_child_to_node(&mut self, parent_index: usize, child_index: usize) -> (r: Result<()>)
        ensures
            old(self).gltf.nodes is None ==> {
                &&& r matches Err(GltfError::InvalidData(m)) && m@ == "No nodes in document"@
                &&& final(self).gltf == old(self).gltf
            },
            old(self).gltf.nodes is Some && !(parent_index < items(old(self).gltf.nodes).len()
                && child_index < items(old(self).gltf.nodes).len()) ==> {
                &&& r matches Err(GltfError::InvalidIndex)
                &&& final(self).gltf == old(self).gltf
            },
            old(self).gltf.nodes is Some && parent_index < items(old(self).gltf.nodes).len()
                && child_index < items(old(self).gltf.nodes).len() ==> {
                let old_nodes = items(old(self).gltf.nodes);
                let new_nodes = items(final(self).gltf.nodes);
                let parent = old_nodes[parent_index as int];
                &&& r is Ok
                &&& final(self).gltf.nodes is Some
                &&& new_nodes.len() == old_nodes.len()
                &&& forall|i: int|
                    0 <= i < old_nodes.len() && i != parent_index ==> new_nodes[i] == old_nodes[i]
                &&& new_nodes[parent_index as int].children matches Some(c) && c@
                    == children_after_adding(parent.children, child_index)
                &&& new_nodes[parent_index as int] == (Node {
                    children: new_nodes[parent_index as int].children,
                    ..parent
                })
                &&& final(self).gltf == (Gltf { nodes: final(self).gltf.nodes, ..old(self).gltf })
            },
            final(self).buffer_data == old(self).buffer_data,
    {
        match &mut self.gltf.nodes {
            Some(nodes) => {
                if parent_index < nodes.len() && child_index < nodes.len() {
                    let parent = &mut nodes[parent_index];
                    match &mut parent.children {
                        Some(children) => {
                            if !contains_index(children, child_index) {
                                children.push(child_index);
                            }
                        },
                        None => {
                            parent.children = Some(vec![child_index]);
                        },
                    }
                    Ok(())
                } else {
                    Err(GltfError::InvalidIndex)
                }
            },
            None => Err(GltfError::InvalidData("No nodes in document".to_string())),
        }
    }

    /// Appends a node without mesh that has the given children and returns its index.
    pub fn create_node_hierarchy(
        &mut self,
        parent_name: Option<String>,
        parent_translation: Option<[FloatBits; 3]>,
        parent_rotation: Option<[FloatBits; 4]>,
        parent_scale: Option<[FloatBits; 3]>,
        child_indices: Vec<usize>,
    ) -> (index: usize)
        ensures
            index == items(old(self).gltf.nodes).len(),
            final(self).gltf.nodes is Some,
            items(final(self).gltf.nodes) == items(old(self).gltf.nodes).push(
                Node {
                    name: parent_name,
                    mesh: None,
                    translation: parent_translation,
                    rotation: parent_rotation,
                    scale: parent_scale,
                    matrix: None,
                    children: Some(child_indices),
                },
            ),
            final(self).gltf == (Gltf { nodes: final(self).gltf.nodes, ..old(self).gltf }),
            final(self).buffer_data == old(self).buffer_data,
    {
        self.add_node_with_children(
            parent_name,
            None,
            parent_translation,
            parent_rotation,
            parent_scale,
            child_indices,
        )
    }

    /// Appends a mesh made of `primitives` and returns its index.
    pub fn add_mesh(&mut self, name: Option<String>, primitives: Vec<Primitive>) -> (index: usize)
        ensures
            index == items(old(self).gltf.meshes).len(),
            final(self).gltf.meshes is Some,
            items(final(self).gltf.meshes) == items(old(self).gltf.meshes).push(
                Mesh { name, primitives },
            ),
            final(self).gltf == (Gltf { meshes: final(self).gltf.meshes, ..old(self).gltf }),
            final(self).buffer_data == old(self).buffer_data,
    {
        let mesh = Mesh { name, primitives };
        push_item(&mut self.gltf.meshes, mesh)
    }

    /// Appends an accessor (not normalized) and returns its index.
    pub fn add_accessor(
        &mut self,
        buffer_view: usize,
        component_type: usize,
        count: usize,
        type_: String,
        byte_offset: Option<usize>,
        min: Option<Vec<FloatBits>>,
        max: Option<Vec<FloatBits>>,
    ) -> (index: usize)
        ensures
            index == items(old(self).gltf.accessors).len(),
            final(self).gltf.accessors is Some,
            items(final(self).gltf.accessors) == items(old(self).gltf.accessors).push(
                Accessor {
                    buffer_view,
                    component_type,
                    count,
                    type_,
                    byte_offset,
                    min,
                    max,
                    normalized: None,
                },
            ),
            final(self).gltf == (Gltf { accessors: final(self).gltf.accessors, ..old(self).gltf }),
            final(self).buffer_data == old(self).buffer_data,
    {
        let accessor = Accessor {
            buffer_view,
            component_type,
            count,
            type_,
            byte_offset,
            min,
            max,
            normalized: None,
        };
        push_item(&mut self.gltf.accessors, accessor)
    }

    /// Appends a view of buffer 0 (no stride) and returns its index.
    pub fn add_buffer_view(&mut self, byte_offset: usize, byte_length: usize, target: Option<usize>) -> (index: usize)
        ensures
            index == items(old(self).gltf.buffer_views).len(),
            final(self).gltf.buffer_views is Some,
            items(final(self).gltf.buffer_views) == items(old(self).gltf.buffer_views).push(
                BufferView { buffer: 0, byte_offset, byte_length, byte_stride: None, target },
            ),
            final(self).gltf == (Gltf {
                buffer_views: final(self).gltf.buffer_views,
                ..old(self).gltf
            }),
            final(self).buffer_data == old(self).buffer_data,
    {
        let buffer_view = BufferView { buffer: 0, byte_offset, byte_length, byte_stride: None, target };
        push_item(&mut self.gltf.buffer_views, buffer_view)
    }

    /// Appends `data` to the binary buffer at the next offset that is a multiple of four (the
    /// gap is filled with zeros), records the new length of the buffer as the length of buffer
    /// 0, and returns the offset and length of the data.
    pub fn add_buffer_data(&mut self, data: &[u8]) -> (r: (usize, usize))
        ensures
            final(self).buffer_data@ == buffer_after_adding(old(self).buffer_data@, data@),
            r.0 == old(self).buffer_data@.len() + pad4(old(self).buffer_data@.len() as int),
            r.0 % 4 == 0,
            r.1 == data@.len(),
            final(self).buffer_data@.subrange(r.0 as int, r.0 + r.1) == data@,
            final(self).buffer_data@.subrange(0, old(self).buffer_data@.len() as int)
                == old(self).buffer_data@,
            buffers_after_growing(
                old(self).gltf.buffers,
                final(self).gltf.buffers,
                final(self).buffer_data@.len() as int,
            ),
            final(self).gltf == (Gltf { buffers: final(self).gltf.buffers, ..old(self).gltf }),
            final(self).buffer_length_recorded(),
    {
        let pad = padding_for(self.buffer_data.len());
        append_fill(&mut self.buffer_data, 0, pad);
        let byte_offset = self.buffer_data.len();
        let byte_length = data.len();
        append_bytes(&mut self.buffer_data, data);
        let total = self.buffer_data.len();
        match &mut self.gltf.buffers {
            Some(buffers) => {
                if buffers.len() > 0 {
                    buffers[0].byte_length = total;
                }
            },
            None => {},
        }
        proof {
            let new = self.buffer_data@;
            assert(new.subrange(byte_offset as int, byte_offset + byte_length) =~= data@);
            assert(new.subrange(0, old(self).buffer_data@.len() as int) =~= old(self).buffer_data@);
        }
        (byte_offset, byte_length)
    }

    /// The GLB file of the document whose JSON text is `json`: the JSON chunk and, when the
    /// binary buffer is not empty, the binary chunk with the buffer's bytes.
    pub fn export_glb_bytes(&self, json: &[u8]) -> (out: Vec<u8>)
        requires
            json@.len() + self.buffer_data@.len() + 64 <= usize::MAX,
        ensures
            out@ == document_glb(json@, self.buffer_data@),
    {
        document_glb_bytes(json, self.buffer_data.as_slice())
    }
}

/// Data added to the binary buffer stays where it was put: after `first` and then `second`
/// are added, `first` is still found at the offset returned for it, and `second` at its own
/// offset, both multiples of four.
pub proof fn lemma_buffer_data_stays(buffer: Seq<u8>, first: Seq<u8>, second: Seq<u8>)
    ensures
        ({
            let after_first = buffer_after_adding(buffer, first);
            let after_second = buffer_after_adding(after_first, second);
            let first_offset = buffer.len() + pad4(buffer.len() as int);
            let second_offset = after_first.len() + pad4(after_first.len() as int);
            &&& first_offset % 4 == 0
            &&& second_offset % 4 == 0
            &&& after_second.subrange(first_offset, first_offset + first.len()) == first
            &&& after_second.subrange(second_offset, second_offset + second.len()) == second
            &&& after_second.subrange(0, buffer.len() as int) == buffer
        }),
{
    let after_first = buffer_after_adding(buffer, first);
    let after_second = buffer_after_adding(after_first, second);
    let first_offset = buffer.len() + pad4(buffer.len() as int);
    let second_offset = after_first.len() + pad4(after_first.len() as int);
    assert(after_second.subrange(first_offset, first_offset + first.len()) =~= first);
    assert(after_second.subrange(second_offset, second_offset + second.len()) =~= second);
    assert(after_second.subrange(0, buffer.len() as int) =~= buffer);
}

/// Whether `v` holds `x`.
pub fn contains_index(v: &Vec<usize>, x: usize) -> (r: bool)
    ensures
        r == v@.contains(x),
{
    let mut i: usize = 0;
    while i < v.len()
        invariant
            i <= v@.len(),
            forall|j: int| 0 <= j < i ==> v@[j] != x,
        decreases v@.len() - i,
    {
        if v[i] == x {
            return true;
        }
        i = i + 1;
    }
    false
}

} // verus!

//! The standalone glTF exporter for a [`VertexMesh`]: a self-contained document with one
//! scene, one node and one mesh whose attributes and indices are laid out back to back in one
//! binary buffer.

use vstd::prelude::*;
use crate::bytes::{FloatBits, u32s_le, flatten, append_arrays_le, lemma_u32s_le_len, lemma_flatten_len};
use crate::models::{opt_view, names_distinct};
use crate::vertex_mesh::{
    Vertex, Face, VertexMesh, ONE_BITS, positions_of, normals_or, uvs_or, tangents_or, colors_or,
    face_indices, indices_u16_le, indices_u32_le, collect_positions, collect_normals, collect_uvs,
    collect_tangents, collect_colors, append_face_indices, lemma_face_indices_len, lemma_indices_le_len,
};

verus! {

/// Which vertex attributes the exporter writes, and the material it gives the mesh.
#[derive(Debug)]
pub struct GlbExportOptions {
    /// Write normals (when some vertex has one).
    pub include_normals: bool,
    /// Write texture coordinates (when some vertex has one).
    pub include_uvs: bool,
    /// Write tangents (when some vertex has one).
    pub include_tangents: bool,
    /// Write vertex colours (when some vertex has one).
    pub include_colors: bool,
    /// The material of the mesh, if any.
    pub material: Option<Material>,
}

impl Default for GlbExportOptions {
    /// Normals and texture coordinates, no tangents, no colours, no material.
    fn default() -> (o: GlbExportOptions)
        ensures
            o.include_normals,
            o.include_uvs,
            !o.include_tangents,
            !o.include_colors,
            o.material is None,
    {
        GlbExportOptions {
            include_normals: true,
            include_uvs: true,
            include_tangents: false,
            include_colors: false,
            material: None,
        }
    }
}

/// The root object of the exported document.
#[derive(Debug)]
pub struct GltfRoot {
    /// Metadata about the asset.
    pub asset: Asset,
    /// The scenes.
    pub scenes: Option<Vec<Scene>>,
    /// The index of the default scene.
    pub scene: Option<usize>,
    /// The nodes.
    pub nodes: Option<Vec<Node>>,
    /// The meshes.
    pub meshes: Option<Vec<GltfMesh>>,
    /// The materials.
    pub materials: Option<Vec<Material>>,
    /// The textures.
    pub textures: Option<Vec<Texture>>,
    /// The images.
    pub images: Option<Vec<Image>>,
    /// The samplers.
    pub samplers: Option<Vec<Sampler>>,
    /// The accessors.
    pub accessors: Option<Vec<Accessor>>,
    /// The buffer views.
    pub buffer_views: Option<Vec<BufferView>>,
    /// The buffers.
    pub buffers: Option<Vec<Buffer>>,
    /// Names of the extensions used.
    pub extensions_used: Option<Vec<String>>,
    /// Names of the extensions required to load the asset.
    pub extensions_required: Option<Vec<String>>,
}

/// Metadata about the asset.
#[derive(Debug)]
pub struct Asset {
    /// A copyright message.
    pub copyright: Option<String>,
    /// The tool that generated the asset.
    pub generator: Option<String>,
    /// The glTF version of the asset.
    pub version: String,
    /// The minimum glTF version needed to load the asset.
    pub min_version: Option<String>,
}

impl Default for Asset {
    /// glTF version "2.0", generated by "mesh-tools".
    fn default() -> (a: Asset)
        ensures
            a.copyright is None,
            opt_view(a.generator) == Some("mesh-tools"@),
            a.version@ == "2.0"@,
            a.min_version is None,
    {
        Asset {
            copyright: None,
            generator: Some("mesh-tools".to_string()),
            version: "2.0".to_string(),
            min_version: None,
        }
    }
}

/// A scene: its root nodes.
#[derive(Debug)]
pub struct Scene {
    /// The indices of the root nodes.
    pub nodes: Option<Vec<usize>>,
    /// The name of the scene.
    pub name: Option<String>,
}

/// A node of the node hierarchy.
#[derive(Debug)]
pub struct Node {
    /// The camera of the node.
    pub camera: Option<usize>,
    /// The indices of the children.
    pub children: Option<Vec<usize>>,
    /// The skin of the node.
    pub skin: Option<usize>,
    /// The local transformation as a column-major 4x4 matrix.
    pub matrix: Option<[FloatBits; 16]>,
    /// The mesh of the node.
    pub mesh: Option<usize>,
    /// The rotation quaternion (x, y, z, w).
    pub rotation: Option<[FloatBits; 4]>,
    /// The scale along x, y and z.
    pub scale: Option<[FloatBits; 3]>,
    /// The translation along x, y and z.
    pub translation: Option<[FloatBits; 3]>,
    /// The morph-target weights.
    pub weights: Option<Vec<FloatBits>>,
    /// The name of the node.
    pub name: Option<String>,
}

/// A primitive: geometry to draw with one material.
#[derive(Debug)]
pub struct Primitive {
    /// The (semantic, accessor index) entries of the attribute dictionary.
    pub attributes: Vec<(String, usize)>,
    /// The accessor of the vertex indices.
    pub indices: Option<usize>,
    /// The material.
    pub material: Option<usize>,
    /// The topology of the primitive.
    pub mode: Option<u32>,
    /// The morph targets, each an attribute dictionary.
    pub targets: Option<Vec<Vec<(String, usize)>>>,
}

/// A mesh: a list of primitives.
#[derive(Debug)]
pub struct GltfMesh {
    /// The primitives.
    pub primitives: Vec<Primitive>,
    /// The default morph-target weights.
    pub weights: Option<Vec<FloatBits>>,
    /// The name of the mesh.
    pub name: Option<String>,
}

/// The appearance of a primitive.
#[derive(Debug)]
pub struct Material {
    /// The name of the material.
    pub name: Option<String>,
    /// The metallic-roughness parameters.
    pub pbr_metallic_roughness: Option<PbrMetallicRoughness>,
    /// The normal map.
    pub normal_texture: Option<NormalTextureInfo>,
    /// The occlusion map.
    pub occlusion_texture: Option<OcclusionTextureInfo>,
    /// The emissive map.
    pub emissive_texture: Option<TextureInfo>,
    /// The emissive colour.
    pub emissive_factor: Option<[FloatBits; 3]>,
    /// The alpha mode.
    pub alpha_mode: Option<String>,
    /// The alpha cutoff.
    pub alpha_cutoff: Option<FloatBits>,
    /// Whether both sides are rendered.
    pub double_sided: Option<bool>,
}

impl Material {
    /// A copy of the material.
    pub fn duplicate(&self) -> (m: Material)
        ensures
            m == *self,
    {
        let name = match &self.name {
            Some(s) => Some(s.clone()),
            None => None,
        };
        let alpha_mode = match &self.alpha_mode {
            Some(s) => Some(s.clone()),
            None => None,
        };
        Material {
            name,
            pbr_metallic_roughness: self.pbr_metallic_roughness,
            normal_texture: self.normal_texture,
            occlusion_texture: self.occlusion_texture,
            emissive_texture: self.emissive_texture,
            emissive_factor: self.emissive_factor,
            alpha_mode,
            alpha_cutoff: self.alpha_cutoff,
            double_sided: self.double_sided,
        }
    }
}

/// The metallic-roughness material parameters.
#[derive(Debug, Clone, Copy)]
pub struct PbrMetallicRoughness {
    /// The base colour (r, g, b, a).
    pub base_color_factor: Option<[FloatBits; 4]>,
    /// The base colour texture.
    pub base_color_texture: Option<TextureInfo>,
    /// The metalness.
    pub metallic_factor: Option<FloatBits>,
    /// The roughness.
    pub roughness_factor: Option<FloatBits>,
    /// The metallic-roughness texture.
    pub metallic_roughness_texture: Option<TextureInfo>,
}

/// A reference to a texture.
#[derive(Debug, Clone, Copy)]
pub struct TextureInfo {
    /// The texture.
    pub index: usize,
    /// The texture-coordinate set.
    pub tex_coord: Option<usize>,
}

/// A reference to a normal map.
#[derive(Debug, Clone, Copy)]
pub struct NormalTextureInfo {
    /// The texture.
    pub index: usize,
    /// The texture-coordinate set.
    pub tex_coord: Option<usize>,
    /// The scale of the normals.
    pub scale: Option<FloatBits>,
}

/// A reference to an occlusion map.
#[derive(Debug, Clone, Copy)]
pub struct OcclusionTextureInfo {
    /// The texture.
    pub index: usize,
    /// The texture-coordinate set.
    pub tex_coord: Option<usize>,
    /// The strength of the occlusion.
    pub strength: Option<FloatBits>,
}

/// A texture: an image and a sampler.
#[derive(Debug)]
pub struct Texture {
    /// The sampler.
    pub sampler: Option<usize>,
    /// The image.
    pub source: Option<usize>,
    /// The name of the texture.
    pub name: Option<String>,
}

/// An image, by URI or in a buffer view.
#[derive(Debug)]
pub struct Image {
    /// The URI of the image.
    pub uri: Option<String>,
    /// The MIME type of the image data.
    pub mime_type: Option<String>,
    /// The buffer view holding the image.
    pub buffer_view: Option<usize>,
    /// The name of the image.
    pub name: Option<String>,
}

/// Filtering and wrapping of a texture.
#[derive(Debug)]
pub struct Sampler {
    /// Magnification filter.
    pub mag_filter: Option<u32>,
    /// Minification filter.
    pub min_filter: Option<u32>,
    /// Wrapping along s.
    pub wrap_s: Option<u32>,
    /// Wrapping along t.
    pub wrap_t: Option<u32>,
    /// The name of the sampler.
    pub name: Option<String>,
}

/// A typed view of the data of a buffer view.
#[derive(Debug)]
pub struct Accessor {
    /// The buffer view.
    pub buffer_view: Option<usize>,
    /// The offset within the buffer view.
    pub byte_offset: Option<usize>,
    /// The component type.
    pub component_type: u32,
    /// Whether integer components are normalized.
    pub normalized: Option<bool>,
    /// The number of elements.
    pub count: usize,
    /// The element type ("SCALAR", "VEC3", ...).
    pub type_: String,
    /// The largest value of each component.
    pub max: Option<Vec<FloatBits>>,
    /// The smallest value of each component.
    pub min: Option<Vec<FloatBits>>,
    /// Sparse storage of deviating elements.
    pub sparse: Option<AccessorSparse>,
    /// The name of the accessor.
    pub name: Option<String>,
}

/// Sparse storage of the elements that deviate from the accessor's base values.
#[derive(Debug)]
pub struct AccessorSparse {
    /// The number of deviating elements.
    pub count: usize,
    /// Where the indices of the deviating elements are.
    pub indices: AccessorSparseIndices,
    /// Where the deviating values are.
    pub values: AccessorSparseValues,
}

/// The indices of the deviating elements of a sparse accessor.
#[derive(Debug)]
pub struct AccessorSparseIndices {
    /// The buffer view of the indices.
    pub buffer_view: usize,
    /// The offset within the buffer view.
    pub byte_offset: Option<usize>,
    /// The component type of the indices.
    pub component_type: u32,
}

/// The deviating values of a sparse accessor.
#[derive(Debug)]
pub struct AccessorSparseValues {
    /// The buffer view of the values.
    pub buffer_view: usize,
    /// The offset within the buffer view.
    pub byte_offset: Option<usize>,
}

/// A contiguous part of a buffer.
#[derive(Debug)]
pub struct BufferView {
    /// The buffer.
    pub buffer: usize,
    /// The offset into the buffer.
    pub byte_offset: Option<usize>,
    /// The length in bytes.
    pub byte_length: usize,
    /// The stride between elements.
    pub byte_stride: Option<usize>,
    /// The GPU buffer target.
    pub target: Option<u32>,
    /// The name of the view.
    pub name: Option<String>,
}

/// A buffer of binary data.
#[derive(Debug)]
pub struct Buffer {
    /// The URI of the data (none for the binary chunk of a GLB file).
    pub uri: Option<String>,
    /// The length in bytes.
    pub byte_length: usize,
    /// The name of the buffer.
    pub name: Option<String>,
}

/// One block of the exported binary buffer: its bytes and how its buffer view and accessor
/// describe it.
pub struct Section {
    /// The name of the buffer view and the accessor.
    pub name: Seq<char>,
    /// The bytes.
    pub data: Seq<u8>,
    /// The GPU buffer target of the view.
    pub target: u32,
    /// The component type of the accessor.
    pub component_type: u32,
    /// The number of elements.
    pub count: int,
    /// The element type.
    pub kind: Seq<char>,
    /// The attribute semantic the accessor serves (none for the indices).
    pub attribute: Option<Seq<char>>,
    /// The smallest and largest value of each component, where the accessor records them.
    pub bounds: Option<(Seq<FloatBits>, Seq<FloatBits>)>,
    /// Whether the accessor marks its values as normalized.
    pub normalized: bool,
}

/// Some vertex has a normal.
pub open spec fn any_normal(vs: Seq<Vertex>) -> bool {
    exists|i: int| 0 <= i < vs.len() && (#[trigger] vs[i]).normal is Some
}

/// Some vertex has a texture coordinate.
pub open spec fn any_uv(vs: Seq<Vertex>) -> bool {
    exists|i: int| 0 <= i < vs.len() && (#[trigger] vs[i]).uv is Some
}

/// Some vertex has a tangent.
pub open spec fn any_tangent(vs: Seq<Vertex>) -> bool {
    exists|i: int| 0 <= i < vs.len() && (#[trigger] vs[i]).tangent is Some
}

/// Some vertex has a colour.
pub open spec fn any_color(vs: Seq<Vertex>) -> bool {
    exists|i: int| 0 <= i < vs.len() && (#[trigger] vs[i]).color is Some
}

/// The default normal of the standalone exporter: straight up (0, 1, 0).
pub open spec fn up_normal() -> [FloatBits; 3] {
    [0, ONE_BITS, 0]
}

/// The default tangent: (1, 0, 0) with handedness 1.
pub open spec fn default_tangent() -> [FloatBits; 4] {
    [ONE_BITS, 0, 0, ONE_BITS]
}

/// The default colour: opaque white.
pub open spec fn white() -> [FloatBits; 4] {
    [ONE_BITS, ONE_BITS, ONE_BITS, ONE_BITS]
}

/// The section of a vertex attribute given as arrays of `N` floats.
pub open spec fn attribute_section<const N: usize>(
    name: Seq<char>,
    values: Seq<[FloatBits; N]>,
    kind: Seq<char>,
    attribute: Seq<char>,
    bounds: Option<(Seq<FloatBits>, Seq<FloatBits>)>,
) -> Section {
    Section {
        name,
        data: u32s_le(flatten(values)),
        target: 34962,
        component_type: 5126,
        count: values.len() as int,
        kind,
        attribute: Some(attribute),
        bounds,
        normalized: false,
    }
}

/// Whether a mesh with `n` vertices stores its indices in 16 bits.
pub open spec fn short_indices(n: int) -> bool {
    n <= 65535
}

/// The section of the vertex indices: 16-bit when the mesh has at most 65535 vertices, else
/// 32-bit.
pub open spec fn index_section(vs: Seq<Vertex>, fs: Seq<Face>) -> Section {
    Section {
        name: "indices"@,
        data: if short_indices(vs.len() as int) {
            indices_u16_le(face_indices(fs))
        } else {
            indices_u32_le(face_indices(fs))
        },
        target: 34963,
        component_type: if short_indices(vs.len() as int) { 5123 } else { 5125 },
        count: 3 * fs.len() as int,
        kind: "SCALAR"@,
        attribute: None,
        bounds: None,
        normalized: false,
    }
}

/// The sections of an exported mesh, in buffer order: positions (with `bounds`), then each
/// requested attribute that some vertex has (normals, texture coordinates, tangents,
/// colours; a vertex without one gets the default), then the indices.
pub open spec fn mesh_sections(
    vs: Seq<Vertex>,
    fs: Seq<Face>,
    o: GlbExportOptions,
    bounds: ([FloatBits; 3], [FloatBits; 3]),
) -> Seq<Section> {
    seq![attribute_section("positions"@, positions_of(vs), "VEC3"@, "POSITION"@, Some((bounds.0@, bounds.1@)))]
        + (if o.include_normals && any_normal(vs) {
        seq![attribute_section("normals"@, normals_or(vs, up_normal()), "VEC3"@, "NORMAL"@, None)]
    } else {
        Seq::empty()
    }) + (if o.include_uvs && any_uv(vs) {
        seq![attribute_section("texcoords"@, uvs_or(vs, [0, 0]), "VEC2"@, "TEXCOORD_0"@, None)]
    } else {
        Seq::empty()
    }) + (if o.include_tangents && any_tangent(vs) {
        seq![attribute_section("tangents"@, tangents_or(vs, default_tangent()), "VEC4"@, "TANGENT"@, None)]
    } else {
        Seq::empty()
    }) + (if o.include_colors && any_color(vs) {
        seq![attribute_section("colors"@, colors_or(vs, white()), "VEC4"@, "COLOR_0"@, None)]
    } else {
        Seq::empty()
    }) + seq![index_section(vs, fs)]
}

/// The bytes of the sections, back to back.
pub open spec fn sections_data(secs: Seq<Section>) -> Seq<u8>
    decreases secs.len(),
{
    if secs.len() == 0 {
        Seq::empty()
    } else {
        sections_data(secs.drop_last()) + secs.last().data
    }
}

/// The offset of section `i` in the buffer.
pub open spec fn section_offset(secs: Seq<Section>, i: int) -> int {
    sections_data(secs.subrange(0, i)).len() as int
}

/// The values of an optional list.
pub open spec fn opt_values(v: Option<Vec<FloatBits>>) -> Option<Seq<FloatBits>> {
    match v {
        Some(v) => Some(v@),
        None => None,
    }
}

/// `v` is the buffer view of section `sec` starting at `offset` of buffer 0.
pub open spec fn view_of(v: BufferView, sec: Section, offset: int) -> bool {
    &&& v.buffer == 0
    &&& v.byte_offset == Some(offset as usize)
    &&& v.byte_length == sec.data.len()
    &&& v.byte_stride is None
    &&& v.target == Some(sec.target)
    &&& opt_view(v.name) == Some(sec.name)
}

/// `a` is the accessor of section `sec`, reading buffer view `view`.
pub open spec fn accessor_of(a: Accessor, sec: Section, view: int) -> bool {
    &&& a.buffer_view == Some(view as usize)
    &&& a.byte_offset is None
    &&& a.component_type == sec.component_type
    &&& a.normalized is None
    &&& a.count == sec.count
    &&& a.type_@ == sec.kind
    &&& match sec.bounds {
        Some((lo, hi)) => opt_values(a.min) == Some(lo) && opt_values(a.max) == Some(hi),
        None => a.min is None && a.max is None,
    }
    &&& a.sparse is None
    &&& opt_view(a.name) == Some(sec.name)
}

/// The binary buffer, views and accessors describe the sections `secs`: the buffer is their
/// bytes back to back, and view `i` and accessor `i` describe section `i`.
pub open spec fn layout_of(binary: Seq<u8>, views: Seq<BufferView>, accessors: Seq<Accessor>, secs: Seq<Section>) -> bool {
    &&& binary == sections_data(secs)
    &&& views.len() == secs.len()
    &&& accessors.len() == secs.len()
    &&& forall|i: int| 0 <= i < secs.len() ==> #[trigger] view_of(views[i], secs[i], section_offset(secs, i))
    &&& forall|i: int| 0 <= i < secs.len() ==> #[trigger] accessor_of(accessors[i], secs[i], i)
}

/// The (semantic, accessor index) entries of the attributes of the sections.
pub open spec fn attribute_entries_of(secs: Seq<Section>) -> Seq<(Seq<char>, usize)>
    decreases secs.len(),
{
    if secs.len() == 0 {
        Seq::empty()
    } else {
        let prev = attribute_entries_of(secs.drop_last());
        match secs.last().attribute {
            Some(a) => prev.push((a, (secs.len() - 1) as usize)),
            None => prev,
        }
    }
}

/// No two sections carry the same attribute.
pub open spec fn attributes_distinct(secs: Seq<Section>) -> bool {
    forall|i: int, j: int|
        #![trigger secs[i], secs[j]]
        0 <= i < j < secs.len() && secs[i].attribute is Some ==> secs[i].attribute != secs[j].attribute
}

/// Each attribute entry of the sections names the accessor of a section carrying that
/// attribute, and the entries follow the sections' order.
proof fn lemma_entries_index(secs: Seq<Section>)
    requires
        secs.len() <= usize::MAX,
    ensures
        forall|k: int|
            0 <= k < attribute_entries_of(secs).len() ==> {
                let e = #[trigger] attribute_entries_of(secs)[k];
                &&& e.1 < secs.len()
                &&& secs[e.1 as int].attribute == Some(e.0)
            },
        forall|k: int, l: int|
            #![trigger attribute_entries_of(secs)[k], attribute_entries_of(secs)[l]]
            0 <= k < l < attribute_entries_of(secs).len() ==> attribute_entries_of(secs)[k].1
                < attribute_entries_of(secs)[l].1,
    decreases secs.len(),
{
    if secs.len() > 0 {
        let prev = secs.drop_last();
        lemma_entries_index(prev);
        let pe = attribute_entries_of(prev);
        let es = attribute_entries_of(secs);
        let last = (secs.len() - 1) as usize;
        assert(last == secs.len() - 1);
        assert(forall|k: int| 0 <= k < prev.len() ==> #[trigger] prev[k] == secs[k]);
        match secs.last().attribute {
            Some(a) => {
                assert(es == pe.push((a, last)));
                assert forall|k: int| 0 <= k < es.len() implies {
                    let e = #[trigger] es[k];
                    &&& e.1 < secs.len()
                    &&& secs[e.1 as int].attribute == Some(e.0)
                } by {
                    if k < pe.len() {
                        assert(es[k] == pe[k]);
                        assert(prev[pe[k].1 as int] == secs[pe[k].1 as int]);
                    } else {
                        assert(es[k] == (a, last));
                    }
                }
                assert forall|k: int, l: int| 0 <= k < l < es.len() implies #[trigger] es[k].1 < #[trigger] es[l].1 by {
                    assert(es[k] == pe[k]);
                    assert(pe[k].1 < prev.len());
                    if l < pe.len() {
                        assert(es[l] == pe[l]);
                        assert(pe[k].1 < pe[l].1);
                    } else {
                        assert(es[l] == (a, last));
                    }
                }
            },
            None => {
                assert(es == pe);
                assert forall|k: int| 0 <= k < es.len() implies {
                    let e = #[trigger] es[k];
                    &&& e.1 < secs.len()
                    &&& secs[e.1 as int].attribute == Some(e.0)
                } by {
                    assert(prev[pe[k].1 as int] == secs[pe[k].1 as int]);
                }
            },
        }
    }
}

/// Sections that never carry one attribute twice give an attribute dictionary that never
/// names one semantic twice.
pub proof fn lemma_entries_names_distinct(secs: Seq<Section>)
    requires
        attributes_distinct(secs),
        secs.len() <= usize::MAX,
    ensures
        names_distinct(attribute_entries_of(secs)),
{
    lemma_entries_index(secs);
    let es = attribute_entries_of(secs);
    assert forall|i: int, j: int| 0 <= i < j < es.len() implies #[trigger] es[i].0 != #[trigger] es[j].0 by {
        let a = es[i].1 as int;
        let b = es[j].1 as int;
        assert(a < b);
        assert(secs[a].attribute == Some(es[i].0));
        assert(secs[b].attribute == Some(es[j].0));
        assert(secs[a].attribute != secs[b].attribute);
    }
}

/// The attributes the exporters write are distinct semantics.
pub(crate) proof fn lemma_semantics_differ()
    ensures
        "POSITION"@ != "NORMAL"@,
        "POSITION"@ != "TEXCOORD_0"@,
        "POSITION"@ != "TANGENT"@,
        "POSITION"@ != "COLOR_0"@,
        "NORMAL"@ != "TEXCOORD_0"@,
        "NORMAL"@ != "TANGENT"@,
        "NORMAL"@ != "COLOR_0"@,
        "TEXCOORD_0"@ != "TANGENT"@,
        "TEXCOORD_0"@ != "COLOR_0"@,
        "TANGENT"@ != "COLOR_0"@,
{
    reveal_strlit("POSITION");
    reveal_strlit("NORMAL");
    reveal_strlit("TEXCOORD_0");
    reveal_strlit("TANGENT");
    reveal_strlit("COLOR_0");
    assert("POSITION"@.len() != "NORMAL"@.len());
    assert("POSITION"@.len() != "TEXCOORD_0"@.len());
    assert("POSITION"@.len() != "TANGENT"@.len());
    assert("POSITION"@.len() != "COLOR_0"@.len());
    assert("NORMAL"@.len() != "TEXCOORD_0"@.len());
    assert("NORMAL"@.len() != "TANGENT"@.len());
    assert("NORMAL"@.len() != "COLOR_0"@.len());
    assert("TEXCOORD_0"@.len() != "TANGENT"@.len());
    assert("TEXCOORD_0"@.len() != "COLOR_0"@.len());
    assert("TANGENT"@[0] != "COLOR_0"@[0]);
}

/// Every attribute that a section of `secs` carries is one of `names`.
pub open spec fn attributes_within(secs: Seq<Section>, names: Seq<Seq<char>>) -> bool {
    forall|i: int| 0 <= i < secs.len() && (#[trigger] secs[i]).attribute is Some ==> names.contains(secs[i].attribute->0)
}

/// Appending at most one section with a new attribute `a` keeps the attributes distinct.
pub proof fn lemma_attributes_extend(secs: Seq<Section>, more: Seq<Section>, names: Seq<Seq<char>>, a: Seq<char>)
    requires
        attributes_distinct(secs),
        attributes_within(secs, names),
        !names.contains(a),
        more.len() <= 1,
        forall|j: int| 0 <= j < more.len() ==> (#[trigger] more[j]).attribute == Some(a),
    ensures
        attributes_distinct(secs + more),
        attributes_within(secs + more, names.push(a)),
{
    let all = secs + more;
    assert forall|i: int, j: int| 0 <= i < j < all.len() && all[i].attribute is Some implies #[trigger] all[i].attribute
        != #[trigger] all[j].attribute by {
        if j >= secs.len() {
            assert(all[j] == more[j - secs.len()]);
            assert(all[i] == secs[i]);
            assert(names.contains(secs[i].attribute->0));
        } else {
            assert(all[i] == secs[i] && all[j] == secs[j]);
        }
    }
    assert forall|i: int| 0 <= i < all.len() && (#[trigger] all[i]).attribute is Some implies names.push(a).contains(
        all[i].attribute->0,
    ) by {
        if i < secs.len() {
            assert(all[i] == secs[i]);
            let k = choose|k: int| 0 <= k < names.len() && names[k] == secs[i].attribute->0;
            assert(names.push(a)[k] == names[k]);
        } else {
            assert(all[i] == more[i - secs.len()]);
            assert(names.push(a)[names.len() as int] == a);
        }
    }
}

/// Appending a section without an attribute keeps the attributes distinct.
pub proof fn lemma_attributes_extend_plain(secs: Seq<Section>, sec: Section)
    requires
        attributes_distinct(secs),
        sec.attribute is None,
    ensures
        attributes_distinct(secs.push(sec)),
{
    let all = secs.push(sec);
    assert forall|i: int, j: int| 0 <= i < j < all.len() && all[i].attribute is Some implies #[trigger] all[i].attribute
        != #[trigger] all[j].attribute by {
        assert(all[i] == secs[i]);
        if j < secs.len() {
            assert(all[j] == secs[j]);
        }
    }
}

/// The sections of an exported mesh carry distinct attributes.
proof fn lemma_mesh_sections_distinct(vs: Seq<Vertex>, fs: Seq<Face>, o: GlbExportOptions, bounds: ([FloatBits; 3], [FloatBits; 3]))
    ensures
        attributes_distinct(mesh_sections(vs, fs, o, bounds)),
{
    lemma_semantics_differ();
    let s0 = seq![attribute_section("positions"@, positions_of(vs), "VEC3"@, "POSITION"@, Some((bounds.0@, bounds.1@)))];
    let c1: Seq<Section> = if o.include_normals && any_normal(vs) {
        seq![attribute_section("normals"@, normals_or(vs, up_normal()), "VEC3"@, "NORMAL"@, None)]
    } else {
        Seq::empty()
    };
    let c2: Seq<Section> = if o.include_uvs && any_uv(vs) {
        seq![attribute_section("texcoords"@, uvs_or(vs, [0, 0]), "VEC2"@, "TEXCOORD_0"@, None)]
    } else {
        Seq::empty()
    };
    let c3: Seq<Section> = if o.include_tangents && any_tangent(vs) {
        seq![attribute_section("tangents"@, tangents_or(vs, default_tangent()), "VEC4"@, "TANGENT"@, None)]
    } else {
        Seq::empty()
    };
    let c4: Seq<Section> = if o.include_colors && any_color(vs) {
        seq![attribute_section("colors"@, colors_or(vs, white()), "VEC4"@, "COLOR_0"@, None)]
    } else {
        Seq::empty()
    };
    let n0 = seq!["POSITION"@];
    assert(attributes_within(s0, n0)) by {
        assert(n0[0] == "POSITION"@);
    }
    lemma_attributes_extend(s0, c1, n0, "NORMAL"@);
    let n1 = n0.push("NORMAL"@);
    lemma_attributes_extend(s0 + c1, c2, n1, "TEXCOORD_0"@);
    let n2 = n1.push("TEXCOORD_0"@);
    lemma_attributes_extend(s0 + c1 + c2, c3, n2, "TANGENT"@);
    let n3 = n2.push("TANGENT"@);
    lemma_attributes_extend(s0 + c1 + c2 + c3, c4, n3, "COLOR_0"@);
    lemma_attributes_extend_plain(s0 + c1 + c2 + c3 + c4, index_section(vs, fs));
    assert(mesh_sections(vs, fs, o, bounds) == (s0 + c1 + c2 + c3 + c4).push(index_section(vs, fs)));
}

/// The (semantic, accessor index) entries of an attribute list.
pub open spec fn entries(attributes: Seq<(String, usize)>) -> Seq<(Seq<char>, usize)> {
    attributes.map_values(|a: (String, usize)| (a.0@, a.1))
}

/// The text of an optional string slice.
pub open spec fn opt_str(s: Option<&str>) -> Option<Seq<char>> {
    match s {
        Some(t) => Some(t@),
        None => None,
    }
}

/// The values of optional bounds.
pub open spec fn bounds_values(b: Option<(Vec<FloatBits>, Vec<FloatBits>)>) -> Option<(Seq<FloatBits>, Seq<FloatBits>)> {
    match b {
        Some((lo, hi)) => Some((lo@, hi@)),
        None => None,
    }
}

/// Adds one section: its bytes go to the end of the buffer, a view covers them and an
/// accessor reads the view; an attribute entry is added when the section serves one.
fn push_section(
    binary: &mut Vec<u8>,
    views: &mut Vec<BufferView>,
    accessors: &mut Vec<Accessor>,
    attributes: &mut Vec<(String, usize)>,
    data: &[u8],
    name: &str,
    target: u32,
    component_type: u32,
    count: usize,
    kind: &str,
    attribute: Option<&str>,
    bounds: Option<(Vec<FloatBits>, Vec<FloatBits>)>,
    Ghost(secs): Ghost<Seq<Section>>,
)
    requires
        layout_of(old(binary)@, old(views)@, old(accessors)@, secs),
        entries(old(attributes)@) == attribute_entries_of(secs),
        secs.len() < usize::MAX,
    ensures
        ({
            let sec = Section {
                name: name@,
                data: data@,
                target,
                component_type,
                count: count as int,
                kind: kind@,
                attribute: opt_str(attribute),
                bounds: bounds_values(bounds),
                normalized: false,
            };
            &&& layout_of(final(binary)@, final(views)@, final(accessors)@, secs.push(sec))
            &&& entries(final(attributes)@) == attribute_entries_of(secs.push(sec))
        }),
{
    let ghost sec = Section {
        name: name@,
        data: data@,
        target,
        component_type,
        count: count as int,
        kind: kind@,
        attribute: opt_str(attribute),
        bounds: bounds_values(bounds),
        normalized: false,
    };
    let ghost new_secs = secs.push(sec);
    let offset = binary.len();
    let index = views.len();
    let mut i: usize = 0;
    let ghost start = binary@;
    while i < data.len()
        invariant
            i <= data@.len(),
            binary@ == start + data@.subrange(0, i as int),
        decreases data@.len() - i,
    {
        binary.push(data[i]);
        i = i + 1;
        assert(binary@ =~= start + data@.subrange(0, i as int));
    }
    assert(data@.subrange(0, i as int) =~= data@);
    views.push(
        BufferView {
            buffer: 0,
            byte_offset: Some(offset),
            byte_length: data.len(),
            byte_stride: None,
            target: Some(target),
            name: Some(name.to_string()),
        },
    );
    let (min, max) = match bounds {
        Some((lo, hi)) => (Some(lo), Some(hi)),
        None => (None, None),
    };
    accessors.push(
        Accessor {
            buffer_view: Some(index),
            byte_offset: None,
            component_type,
            normalized: None,
            count,
            type_: kind.to_string(),
            max,
            min,
            sparse: None,
            name: Some(name.to_string()),
        },
    );
    match attribute {
        Some(a) => {
            attributes.push((a.to_string(), index));
        },
        None => {},
    }
    proof {
        assert(new_secs.drop_last() =~= secs);
        assert(new_secs.subrange(0, secs.len() as int) =~= secs);
        assert forall|j: int| 0 <= j < new_secs.len() implies #[trigger] view_of(
            views@[j],
            new_secs[j],
            section_offset(new_secs, j),
        ) by {
            if j < secs.len() {
                assert(new_secs.subrange(0, j) =~= secs.subrange(0, j));
                assert(view_of(old(views)@[j], secs[j], section_offset(secs, j)));
            }
        }
        assert forall|j: int| 0 <= j < new_secs.len() implies #[trigger] accessor_of(accessors@[j], new_secs[j], j) by {
            if j < secs.len() {
                assert(accessor_of(old(accessors)@[j], secs[j], j));
            }
        }
        assert(entries(attributes@) =~= attribute_entries_of(new_secs));
    }
}

/// `g` is the document the standalone exporter makes of the sections `secs` with the optional
/// `material`: asset "2.0" by "mesh-tools"; scene 0 named "scene" holding node 0; node 0,
/// named "node", showing mesh 0; mesh 0, named "mesh", with one triangle primitive whose
/// attributes are those of the sections, whose indices are the last accessor and whose
/// material is material 0 when there is one; one view and one accessor per section (see
/// [`layout_of`]) over one buffer, named "buffer", of the sections' bytes; nothing else.
pub open spec fn exported_document(g: GltfRoot, secs: Seq<Section>, material: Option<Material>) -> bool {
    &&& g.asset.copyright is None
    &&& opt_view(g.asset.generator) == Some("mesh-tools"@)
    &&& g.asset.version@ == "2.0"@
    &&& g.asset.min_version is None
    &&& g.scene == Some(0usize)
    &&& g.scenes matches Some(scenes) && scenes@.len() == 1 && (scenes@[0].nodes matches Some(ns) && ns@
        == seq![0usize]) && opt_view(scenes@[0].name) == Some("scene"@)
    &&& g.nodes matches Some(nodes) && nodes@.len() == 1 && node_shows_mesh(nodes@[0])
    &&& g.meshes matches Some(meshes) && meshes@.len() == 1 && meshes@[0].weights is None && opt_view(
        meshes@[0].name,
    ) == Some("mesh"@) && meshes@[0].primitives@.len() == 1 && primitive_of(
        meshes@[0].primitives@[0],
        secs,
        material is Some,
    )
    &&& match material {
        Some(m) => g.materials matches Some(ms) && ms@ == seq![m],
        None => g.materials is None,
    }
    &&& g.textures is None
    &&& g.images is None
    &&& g.samplers is None
    &&& g.accessors matches Some(accessors) && g.buffer_views matches Some(views) && layout_of(
        sections_data(secs),
        views@,
        accessors@,
        secs,
    )
    &&& g.buffers matches Some(buffers) && buffers@.len() == 1 && buffers@[0].uri is None
        && buffers@[0].byte_length == sections_data(secs).len() && opt_view(buffers@[0].name) == Some(
        "buffer"@,
    )
    &&& g.extensions_used is None
    &&& g.extensions_required is None
}

/// Node "node" showing mesh 0, with nothing else set.
pub open spec fn node_shows_mesh(n: Node) -> bool {
    &&& n.camera is None
    &&& n.children is None
    &&& n.skin is None
    &&& n.matrix is None
    &&& n.mesh == Some(0usize)
    &&& n.rotation is None
    &&& n.scale is None
    &&& n.translation is None
    &&& n.weights is None
    &&& opt_view(n.name) == Some("node"@)
}

/// The triangle primitive over the sections: their attributes (no semantic named twice), the
/// last section's accessor as indices, material 0 when `has_material`.
pub open spec fn primitive_of(p: Primitive, secs: Seq<Section>, has_material: bool) -> bool {
    &&& entries(p.attributes@) == attribute_entries_of(secs)
    &&& names_distinct(entries(p.attributes@))
    &&& p.indices == Some((secs.len() - 1) as usize)
    &&& p.material == if has_material { Some(0usize) } else { None }
    &&& p.mode == Some(4u32)
    &&& p.targets is None
}

impl GltfRoot {
    /// An empty document with the default asset.
    pub fn new() -> (g: GltfRoot)
        ensures
            opt_view(g.asset.generator) == Some("mesh-tools"@),
            g.asset.version@ == "2.0"@,
            g.asset.copyright is None && g.asset.min_version is None,
            g.scenes is None && g.scene is None && g.nodes is None && g.meshes is None,
            g.materials is None && g.textures is None && g.images is None && g.samplers is None,
            g.accessors is None && g.buffer_views is None && g.buffers is None,
            g.extensions_used is None && g.extensions_required is None,
    {
        GltfRoot {
            asset: Asset::default(),
            scenes: None,
            scene: None,
            nodes: None,
            meshes: None,
            materials: None,
            textures: None,
            images: None,
            samplers: None,
            accessors: None,
            buffer_views: None,
            buffers: None,
            extensions_used: None,
            extensions_required: None,
        }
    }

    /// The document of [`GltfRoot::from_mesh`] together with the binary buffer it describes.
    pub fn from_mesh_with_data(
        mesh: &VertexMesh,
        options: &GlbExportOptions,
        bounds: ([FloatBits; 3], [FloatBits; 3]),
    ) -> (r: (GltfRoot, Vec<u8>))
        requires
            3 * mesh.triangles@.len() <= usize::MAX,
        ensures
            exported_document(r.0, mesh_sections(mesh.vertices@, mesh.triangles@, *options, bounds), options.material),
            r.1@ == sections_data(mesh_sections(mesh.vertices@, mesh.triangles@, *options, bounds)),
    {
        broadcast use vstd::array::group_array_axioms;

        let ghost vs = mesh.vertices@;
        let ghost fs = mesh.triangles@;
        let n = mesh.vertices.len();
        let mut binary: Vec<u8> = Vec::new();
        let mut views: Vec<BufferView> = Vec::new();
        let mut accessors: Vec<Accessor> = Vec::new();
        let mut attributes: Vec<(String, usize)> = Vec::new();
        let ghost mut secs: Seq<Section> = Seq::empty();
        assert(entries(attributes@) =~= attribute_entries_of(secs));
        assert(layout_of(binary@, views@, accessors@, secs));

        let positions = collect_positions(mesh.vertices.as_slice());
        let mut bytes: Vec<u8> = Vec::new();
        append_arrays_le(&mut bytes, positions.as_slice());
        let lo = vec![bounds.0[0], bounds.0[1], bounds.0[2]];
        let hi = vec![bounds.1[0], bounds.1[1], bounds.1[2]];
        assert(lo@ =~= bounds.0@);
        assert(hi@ =~= bounds.1@);
        push_section(
            &mut binary,
            &mut views,
            &mut accessors,
            &mut attributes,
            bytes.as_slice(),
            "positions",
            34962,
            5126,
            n,
            "VEC3",
            Some("POSITION"),
            Some((lo, hi)),
            Ghost(secs),
        );
        proof {
            secs = secs.push(attribute_section("positions"@, positions_of(vs), "VEC3"@, "POSITION"@, Some((bounds.0@, bounds.1@))));
        }
        let ghost base = secs;

        if options.include_normals && mesh.has_normals() {
            let normals = collect_normals(mesh.vertices.as_slice(), [0, ONE_BITS, 0]);
            let mut bytes: Vec<u8> = Vec::new();
            append_arrays_le(&mut bytes, normals.as_slice());
            push_section(
                &mut binary, &mut views, &mut accessors, &mut attributes, bytes.as_slice(),
                "normals", 34962, 5126, n, "VEC3", Some("NORMAL"), None, Ghost(secs),
            );
            proof {
                assert([0, ONE_BITS, 0] =~= up_normal());
                secs = secs.push(attribute_section("normals"@, normals_or(vs, up_normal()), "VEC3"@, "NORMAL"@, None));
            }
        }
        let ghost with_normals = secs;

        if options.include_uvs && mesh.has_uvs() {
            let uvs = collect_uvs(mesh.vertices.as_slice(), [0, 0]);
            let mut bytes: Vec<u8> = Vec::new();
            append_arrays_le(&mut bytes, uvs.as_slice());
            push_section(
                &mut binary, &mut views, &mut accessors, &mut attributes, bytes.as_slice(),
                "texcoords", 34962, 5126, n, "VEC2", Some("TEXCOORD_0"), None, Ghost(secs),
            );
            proof {
                secs = secs.push(attribute_section("texcoords"@, uvs_or(vs, [0, 0]), "VEC2"@, "TEXCOORD_0"@, None));
            }
        }
        let ghost with_uvs = secs;

        if options.include_tangents && mesh.has_tangents() {
            let tangents = collect_tangents(mesh.vertices.as_slice(), [ONE_BITS, 0, 0, ONE_BITS]);
            let mut bytes: Vec<u8> = Vec::new();
            append_arrays_le(&mut bytes, tangents.as_slice());
            push_section(
                &mut binary, &mut views, &mut accessors, &mut attributes, bytes.as_slice(),
                "tangents", 34962, 5126, n, "VEC4", Some("TANGENT"), None, Ghost(secs),
            );
            proof {
                assert([ONE_BITS, 0, 0, ONE_BITS] =~= default_tangent());
                secs = secs.push(attribute_section("tangents"@, tangents_or(vs, default_tangent()), "VEC4"@, "TANGENT"@, None));
            }
        }
        let ghost with_tangents = secs;

        if options.include_colors && mesh.has_colors() {
            let colors = collect_colors(mesh.vertices.as_slice(), [ONE_BITS, ONE_BITS, ONE_BITS, ONE_BITS]);
            let mut bytes: Vec<u8> = Vec::new();
            append_arrays_le(&mut bytes, colors.as_slice());
            push_section(
                &mut binary, &mut views, &mut accessors, &mut attributes, bytes.as_slice(),
                "colors", 34962, 5126, n, "VEC4", Some("COLOR_0"), None, Ghost(secs),
            );
            proof {
                assert([ONE_BITS, ONE_BITS, ONE_BITS, ONE_BITS] =~= white());
                secs = secs.push(attribute_section("colors"@, colors_or(vs, white()), "VEC4"@, "COLOR_0"@, None));
            }
        }
        let ghost with_colors = secs;

        let short = n <= 65535;
        let mut bytes: Vec<u8> = Vec::new();
        append_face_indices(&mut bytes, mesh.triangles.as_slice(), !short);
        let count = 3 * mesh.triangles.len();
        let component_type: u32 = if short { 5123 } else { 5125 };
        push_section(
            &mut binary, &mut views, &mut accessors, &mut attributes, bytes.as_slice(),
            "indices", 34963, component_type, count, "SCALAR", None, None, Ghost(secs),
        );
        proof {
            secs = secs.push(index_section(vs, fs));
            assert(secs =~= mesh_sections(vs, fs, *options, bounds));
            lemma_mesh_sections_distinct(vs, fs, *options, bounds);
            lemma_entries_names_distinct(secs);
        }

        let index_accessor = views.len() - 1;
        let material_index = match &options.material {
            Some(_) => Some(0usize),
            None => None,
        };
        let primitive = Primitive {
            attributes,
            indices: Some(index_accessor),
            material: material_index,
            mode: Some(4),
            targets: None,
        };
        let materials = match &options.material {
            Some(m) => {
                let mut v: Vec<Material> = Vec::new();
                v.push(m.duplicate());
                Some(v)
            },
            None => None,
        };
        let mut primitives: Vec<Primitive> = Vec::new();
        primitives.push(primitive);
        let gltf_mesh = GltfMesh { primitives, weights: None, name: Some("mesh".to_string()) };
        let node = Node {
            camera: None,
            children: None,
            skin: None,
            matrix: None,
            mesh: Some(0),
            rotation: None,
            scale: None,
            translation: None,
            weights: None,
            name: Some("node".to_string()),
        };
        let mut scene_nodes: Vec<usize> = Vec::new();
        scene_nodes.push(0);
        let scene = Scene { nodes: Some(scene_nodes), name: Some("scene".to_string()) };
        let buffer = Buffer { uri: None, byte_length: binary.len(), name: Some("buffer".to_string()) };
        let mut scenes: Vec<Scene> = Vec::new();
        scenes.push(scene);
        let mut nodes: Vec<Node> = Vec::new();
        nodes.push(node);
        let mut meshes: Vec<GltfMesh> = Vec::new();
        meshes.push(gltf_mesh);
        let mut buffers: Vec<Buffer> = Vec::new();
        buffers.push(buffer);
        let gltf = GltfRoot {
            asset: Asset::default(),
            scenes: Some(scenes),
            scene: Some(0),
            nodes: Some(nodes),
            meshes: Some(meshes),
            materials,
            textures: None,
            images: None,
            samplers: None,
            accessors: Some(accessors),
            buffer_views: Some(views),
            buffers: Some(buffers),
            extensions_used: None,
            extensions_required: None,
        };
        proof {
            if options.material is Some {
                assert(gltf.materials->0@ =~= seq![options.material->0]);
            }
        }
        (gltf, binary)
    }

    /// Builds the glTF document of `mesh` (see [`exported_document`] and [`mesh_sections`]):
    /// positions with the given `bounds` (the smallest and largest coordinates), the requested
    /// attributes that some vertex has, and the indices, 16-bit when the mesh has at most
    /// 65535 vertices.
    pub fn from_mesh(mesh: &VertexMesh, options: &GlbExportOptions, bounds: ([FloatBits; 3], [FloatBits; 3])) -> (g: GltfRoot)
        requires
            3 * mesh.triangles@.len() <= usize::MAX,
        ensures
            exported_document(g, mesh_sections(mesh.vertices@, mesh.triangles@, *options, bounds), options.material),
    {
        let (g, _data) = Self::from_mesh_with_data(mesh, options, bounds);
        g
    }
}

/// The number of components of an element of type `kind`.
pub open spec fn components(kind: Seq<char>) -> int {
    if kind == "VEC2"@ {
        2
    } else if kind == "VEC3"@ {
        3
    } else if kind == "VEC4"@ {
        4
    } else {
        1
    }
}

/// The size in bytes of one component of `component_type` (unsigned short: 2, else 4).
pub open spec fn component_size(component_type: u32) -> int {
    if component_type == 5123 {
        2
    } else {
        4
    }
}

/// The bytes of the section are its element count times the element size.
pub open spec fn well_sized(sec: Section) -> bool {
    sec.data.len() == sec.count * components(sec.kind) * component_size(sec.component_type)
}

proof fn lemma_all_well_sized(a: Seq<Section>, b: Seq<Section>)
    requires
        forall|i: int| 0 <= i < a.len() ==> #[trigger] well_sized(a[i]),
        forall|i: int| 0 <= i < b.len() ==> #[trigger] well_sized(b[i]),
    ensures
        forall|i: int| 0 <= i < (a + b).len() ==> #[trigger] well_sized((a + b)[i]),
{
    assert forall|i: int| 0 <= i < (a + b).len() implies #[trigger] well_sized((a + b)[i]) by {
        if i < a.len() {
            assert((a + b)[i] == a[i]);
        } else {
            assert((a + b)[i] == b[i - a.len()]);
        }
    }
}

/// The bytes of the sections are those of the sections before it followed by its own.
proof fn lemma_sections_data_prefix(secs: Seq<Section>, i: int)
    requires
        0 <= i < secs.len(),
    ensures
        sections_data(secs.subrange(0, i + 1)) == sections_data(secs.subrange(0, i)) + secs[i].data,
        sections_data(secs.subrange(0, i)).len() + secs[i].data.len() <= sections_data(secs).len(),
    decreases secs.len(),
{
    assert(secs.subrange(0, i + 1).drop_last() =~= secs.subrange(0, i));
    if i + 1 < secs.len() {
        lemma_sections_data_prefix(secs.drop_last(), i);
        assert(secs.drop_last().subrange(0, i + 1) =~= secs.subrange(0, i + 1));
        assert(secs.drop_last().subrange(0, i) =~= secs.subrange(0, i));
    } else {
        assert(secs.subrange(0, i + 1) =~= secs);
    }
}

/// In an exported mesh every accessor covers exactly the bytes of its buffer view (element
/// count times element size), the views follow each other without gap or overlap from the
/// start of the buffer, and the buffer ends with the last one.
pub proof fn lemma_mesh_sections_layout(
    vs: Seq<Vertex>,
    fs: Seq<Face>,
    o: GlbExportOptions,
    bounds: ([FloatBits; 3], [FloatBits; 3]),
)
    ensures
        ({
            let secs = mesh_sections(vs, fs, o, bounds);
            &&& forall|i: int|
                0 <= i < secs.len() ==> (#[trigger] secs[i]).data.len() == secs[i].count * components(
                    secs[i].kind,
                ) * component_size(secs[i].component_type)
            &&& section_offset(secs, 0) == 0
            &&& forall|i: int|
                0 <= i < secs.len() ==> #[trigger] section_offset(secs, i + 1) == section_offset(secs, i)
                    + secs[i].data.len()
            &&& section_offset(secs, secs.len() as int) == sections_data(secs).len()
        }),
{
    reveal_strlit("VEC2");
    reveal_strlit("VEC3");
    reveal_strlit("VEC4");
    reveal_strlit("SCALAR");
    let secs = mesh_sections(vs, fs, o, bounds);
    lemma_flatten_len(positions_of(vs));
    lemma_u32s_le_len(flatten(positions_of(vs)));
    lemma_flatten_len(normals_or(vs, up_normal()));
    lemma_u32s_le_len(flatten(normals_or(vs, up_normal())));
    lemma_flatten_len(uvs_or(vs, [0, 0]));
    lemma_u32s_le_len(flatten(uvs_or(vs, [0, 0])));
    lemma_flatten_len(tangents_or(vs, default_tangent()));
    lemma_u32s_le_len(flatten(tangents_or(vs, default_tangent())));
    lemma_flatten_len(colors_or(vs, white()));
    lemma_u32s_le_len(flatten(colors_or(vs, white())));
    lemma_face_indices_len(fs);
    lemma_indices_le_len(face_indices(fs));
    let n = vs.len() as int;
    assert("VEC3"@[3] != "VEC2"@[3]);
    assert("VEC4"@[3] != "VEC2"@[3] && "VEC4"@[3] != "VEC3"@[3]);
    assert("SCALAR"@.len() != "VEC2"@.len() && "SCALAR"@.len() != "VEC3"@.len() && "SCALAR"@.len() != "VEC4"@.len());
    assert(4 * (3 * n) == n * 3 * 4) by (nonlinear_arith);
    assert(4 * (2 * n) == n * 2 * 4) by (nonlinear_arith);
    assert(4 * (4 * n) == n * 4 * 4) by (nonlinear_arith);
    assert(2 * (3 * fs.len()) == (3 * fs.len()) * 1 * 2) by (nonlinear_arith);
    assert(4 * (3 * fs.len()) == (3 * fs.len()) * 1 * 4) by (nonlinear_arith);
    let p0 = seq![attribute_section("positions"@, positions_of(vs), "VEC3"@, "POSITION"@, Some((bounds.0@, bounds.1@)))];
    let p1: Seq<Section> = if o.include_normals && any_normal(vs) {
        seq![attribute_section("normals"@, normals_or(vs, up_normal()), "VEC3"@, "NORMAL"@, None)]
    } else {
        Seq::empty()
    };
    let p2: Seq<Section> = if o.include_uvs && any_uv(vs) {
        seq![attribute_section("texcoords"@, uvs_or(vs, [0, 0]), "VEC2"@, "TEXCOORD_0"@, None)]
    } else {
        Seq::empty()
    };
    let p3: Seq<Section> = if o.include_tangents && any_tangent(vs) {
        seq![attribute_section("tangents"@, tangents_or(vs, default_tangent()), "VEC4"@, "TANGENT"@, None)]
    } else {
        Seq::empty()
    };
    let p4: Seq<Section> = if o.include_colors && any_color(vs) {
        seq![attribute_section("colors"@, colors_or(vs, white()), "VEC4"@, "COLOR_0"@, None)]
    } else {
        Seq::empty()
    };
    let p5 = seq![index_section(vs, fs)];
    assert(secs == p0 + p1 + p2 + p3 + p4 + p5);
    assert(forall|i: int| 0 <= i < p0.len() ==> #[trigger] well_sized(p0[i]));
    assert(forall|i: int| 0 <= i < p1.len() ==> #[trigger] well_sized(p1[i]));
    assert(forall|i: int| 0 <= i < p2.len() ==> #[trigger] well_sized(p2[i]));
    assert(forall|i: int| 0 <= i < p3.len() ==> #[trigger] well_sized(p3[i]));
    assert(forall|i: int| 0 <= i < p4.len() ==> #[trigger] well_sized(p4[i]));
    assert(forall|i: int| 0 <= i < p5.len() ==> #[trigger] well_sized(p5[i]));
    lemma_all_well_sized(p0, p1);
    lemma_all_well_sized(p0 + p1, p2);
    lemma_all_well_sized(p0 + p1 + p2, p3);
    lemma_all_well_sized(p0 + p1 + p2 + p3, p4);
    lemma_all_well_sized(p0 + p1 + p2 + p3 + p4, p5);
    assert forall|i: int| 0 <= i < secs.len() implies (#[trigger] secs[i]).data.len() == secs[i].count
        * components(secs[i].kind) * component_size(secs[i].component_type) by {
        assert(well_sized(secs[i]));
    }
    assert(secs.subrange(0, 0) =~= Seq::<Section>::empty());
    assert forall|i: int| 0 <= i < secs.len() implies #[trigger] section_offset(secs, i + 1) == section_offset(secs, i)
        + secs[i].data.len() by {
        lemma_sections_data_prefix(secs, i);
    }
    assert(secs.subrange(0, secs.len() as int) =~= secs);
}

} // verus!

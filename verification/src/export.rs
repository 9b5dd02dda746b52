//! The GLB exporter for vertex meshes and scenes of them: checks that the mesh has the
//! attributes asked for, lays positions, the requested attributes and the indices out in one
//! binary buffer, and describes them in a glTF document with one material per mesh.

use vstd::prelude::*;
use crate::bytes::{FloatBits, pad4, fill, append_fill, padding_for, append_arrays_le};
use crate::models::{
    Gltf, Asset, Scene, Node, Mesh, Primitive, Accessor, BufferView, Buffer, Material as GltfMaterial,
    PbrMetallicRoughness, opt_view, names_distinct,
};
use crate::gltf::{
    Section, sections_data, section_offset, attribute_section, index_section, attribute_entries_of, entries,
    any_normal, any_uv, any_tangent, any_color, default_tangent, up_normal, opt_str, bounds_values, short_indices,
    attributes_distinct, attributes_within, lemma_attributes_extend, lemma_attributes_extend_plain,
    lemma_entries_names_distinct, lemma_semantics_differ,
};
use crate::mesh::{decimal, append_decimal};
use crate::vertex_mesh::{
    Vertex, Face, VertexMesh, MeshError, ONE_BITS, positions_of, normals_or, uvs_or, tangents_or, opaque_colors,
    collect_positions, collect_normals, collect_uvs, collect_tangents, collect_opaque_colors, append_face_indices,
};

verus! {

/// Errors of the GLB exporter.
#[derive(Debug)]
pub enum ExportError {
    /// Writing the file failed.
    IoError(std::io::Error),
    /// The mesh lacks a vertex attribute the options ask to export.
    MissingAttributes(String),
    /// A mesh operation failed.
    MeshError(MeshError),
    /// The material cannot be exported.
    InvalidMaterial(String),
    /// The GLB container could not be built.
    GlbError(String),
}

impl From<std::io::Error> for ExportError {
    /// Wraps an I/O error.
    fn from(err: std::io::Error) -> (r: ExportError) {
        ExportError::IoError(err)
    }
}

impl vstd::std_specs::convert::FromSpecImpl<std::io::Error> for ExportError {
    open spec fn obeys_from_spec() -> bool {
        true
    }

    open spec fn from_spec(v: std::io::Error) -> ExportError {
        ExportError::IoError(v)
    }
}

impl From<MeshError> for ExportError {
    /// Wraps a mesh error.
    fn from(err: MeshError) -> (r: ExportError) {
        ExportError::MeshError(err)
    }
}

impl vstd::std_specs::convert::FromSpecImpl<MeshError> for ExportError {
    open spec fn obeys_from_spec() -> bool {
        true
    }

    open spec fn from_spec(v: MeshError) -> ExportError {
        ExportError::MeshError(v)
    }
}

/// The material given to an exported mesh.
#[derive(Debug)]
pub struct Material {
    /// The name of the material.
    pub name: String,
    /// The base colour (r, g, b).
    pub base_color: [FloatBits; 3],
    /// The metalness.
    pub metallic: FloatBits,
    /// The roughness.
    pub roughness: FloatBits,
    /// The emitted colour (r, g, b).
    pub emissive: [FloatBits; 3],
}

/// The bit pattern of 0.7.
pub const SEVEN_TENTHS_BITS: FloatBits = 0x3F33_3333;
/// The bit pattern of 0.9.
pub const NINE_TENTHS_BITS: FloatBits = 0x3F66_6666;

impl Material {
    /// A copy of the material.
    pub fn duplicate(&self) -> (m: Material)
        ensures
            m == *self,
    {
        Material {
            name: self.name.clone(),
            base_color: self.base_color,
            metallic: self.metallic,
            roughness: self.roughness,
            emissive: self.emissive,
        }
    }
}

impl Default for Material {
    /// "Default Material": light grey (0.7, 0.7, 0.7), not metallic, roughness 0.9, no
    /// emission.
    fn default() -> (m: Material)
        ensures
            m.name@ == "Default Material"@,
            m.base_color@ == seq![SEVEN_TENTHS_BITS, SEVEN_TENTHS_BITS, SEVEN_TENTHS_BITS],
            m.metallic == 0,
            m.roughness == NINE_TENTHS_BITS,
            m.emissive@ == seq![0u32, 0u32, 0u32],
    {
        let m = Material {
            name: "Default Material".to_string(),
            base_color: [SEVEN_TENTHS_BITS, SEVEN_TENTHS_BITS, SEVEN_TENTHS_BITS],
            metallic: 0,
            roughness: NINE_TENTHS_BITS,
            emissive: [0, 0, 0],
        };
        assert(m.base_color@ =~= seq![SEVEN_TENTHS_BITS, SEVEN_TENTHS_BITS, SEVEN_TENTHS_BITS]);
        assert(m.emissive@ =~= seq![0u32, 0u32, 0u32]);
        m
    }
}

/// What the exporter writes: the material, which vertex attributes besides positions, and the
/// name of the node and mesh.
#[derive(Debug)]
pub struct GlbExportOptions {
    /// The material of the mesh.
    pub material: Material,
    /// Write normals.
    pub export_normals: bool,
    /// Write texture coordinates.
    pub export_uvs: bool,
    /// Write tangents.
    pub export_tangents: bool,
    /// Write vertex colours.
    pub export_colors: bool,
    /// The name of the node and the mesh.
    pub name: String,
}

impl Default for GlbExportOptions {
    /// The default material, normals and texture coordinates, named "mesh".
    fn default() -> (o: GlbExportOptions)
        ensures
            o.material.name@ == "Default Material"@,
            o.material.base_color@ == seq![SEVEN_TENTHS_BITS, SEVEN_TENTHS_BITS, SEVEN_TENTHS_BITS],
            o.material.metallic == 0,
            o.material.roughness == NINE_TENTHS_BITS,
            o.material.emissive@ == seq![0u32, 0u32, 0u32],
            o.export_normals,
            o.export_uvs,
            !o.export_tangents,
            !o.export_colors,
            o.name@ == "mesh"@,
    {
        GlbExportOptions {
            material: Material::default(),
            export_normals: true,
            export_uvs: true,
            export_tangents: false,
            export_colors: false,
            name: "mesh".to_string(),
        }
    }
}

/// The message of the first attribute the options ask for that no vertex has, checked in the
/// order normals, texture coordinates, tangents, colours.
pub open spec fn missing_attribute(vs: Seq<Vertex>, o: GlbExportOptions) -> Option<Seq<char>> {
    if o.export_normals && !any_normal(vs) {
        Some("Mesh doesn't have normals but export_normals is true"@)
    } else if o.export_uvs && !any_uv(vs) {
        Some("Mesh doesn't have UVs but export_uvs is true"@)
    } else if o.export_tangents && !any_tangent(vs) {
        Some("Mesh doesn't have tangents but export_tangents is true"@)
    } else if o.export_colors && !any_color(vs) {
        Some("Mesh doesn't have colors but export_colors is true"@)
    } else {
        None
    }
}

/// The default normal of the GLB exporter: along z (0, 0, 1).
pub open spec fn z_normal() -> [FloatBits; 3] {
    [0, 0, ONE_BITS]
}

/// The colour section: opaque RGBA colours, marked normalized.
pub open spec fn color_section(vs: Seq<Vertex>) -> Section {
    Section { normalized: true, ..attribute_section("colors"@, opaque_colors(vs), "VEC4"@, "COLOR_0"@, None) }
}

/// The sections the GLB exporter writes for a mesh, in buffer order: positions (with
/// `bounds`), then the attributes the options ask for (normals, texture coordinates,
/// tangents, colours; a vertex without one gets the default, the normal (0, 0, 1)), then the
/// indices (16-bit when the mesh has at most 65535 vertices, else 32-bit).
pub open spec fn export_sections(
    vs: Seq<Vertex>,
    fs: Seq<Face>,
    o: GlbExportOptions,
    bounds: ([FloatBits; 3], [FloatBits; 3]),
) -> Seq<Section> {
    mesh_sections_with(
        vs,
        fs,
        o.export_normals,
        o.export_uvs,
        o.export_tangents,
        o.export_colors,
        z_normal(),
        !short_indices(vs.len() as int),
        bounds,
    )
}

/// The binary buffer of the sections: their bytes back to back, padded with zeros to a
/// multiple of four.
pub open spec fn padded_data(secs: Seq<Section>) -> Seq<u8> {
    sections_data(secs) + fill(0, pad4(sections_data(secs).len() as int))
}

/// `v` is the buffer view of section `sec` starting at `offset` of buffer 0.
pub open spec fn model_view_of(v: BufferView, sec: Section, offset: int) -> bool {
    &&& v.buffer == 0
    &&& v.byte_offset == offset
    &&& v.byte_length == sec.data.len()
    &&& v.byte_stride is None
    &&& v.target == Some(sec.target as usize)
}

/// `a` is the accessor of section `sec`, reading buffer view `view`.
pub open spec fn model_accessor_of(a: Accessor, sec: Section, view: int) -> bool {
    &&& a.buffer_view == view
    &&& a.component_type == sec.component_type
    &&& a.count == sec.count
    &&& a.type_@ == sec.kind
    &&& a.byte_offset is None
    &&& match sec.bounds {
        Some((lo, hi)) => (a.min matches Some(m) && m@ == lo) && (a.max matches Some(m) && m@ == hi),
        None => a.min is None && a.max is None,
    }
    &&& a.normalized == if sec.normalized { Some(true) } else { None }
}

/// View `i` and accessor `i` describe section `i`, the views placed back to back from
/// `base` on. In the document they are view and accessor `first + i`, so accessor `i` reads
/// view `first + i`.
#[verifier::opaque]
pub open spec fn model_layout_of(views: Seq<BufferView>, accessors: Seq<Accessor>, secs: Seq<Section>, base: int, first: int) -> bool {
    &&& views.len() == secs.len()
    &&& accessors.len() == secs.len()
    &&& forall|i: int|
        0 <= i < secs.len() ==> #[trigger] model_view_of(views[i], secs[i], base + section_offset(secs, i))
    &&& forall|i: int| 0 <= i < secs.len() ==> #[trigger] model_accessor_of(accessors[i], secs[i], first + i)
}

/// Attribute entries with every accessor index moved on by `first`.
pub open spec fn shifted_entries(es: Seq<(Seq<char>, usize)>, first: int) -> Seq<(Seq<char>, usize)> {
    es.map_values(|e: (Seq<char>, usize)| (e.0, (e.1 + first) as usize))
}

/// `g` is the glTF material made of the exporter's material `m`: its name, base colour with
/// alpha 1, metalness, roughness, emission, and both sides rendered.
pub open spec fn material_of(g: GltfMaterial, m: Material) -> bool {
    &&& opt_view(g.name) == Some(m.name@)
    &&& g.pbr_metallic_roughness matches Some(p) && (p.base_color_factor matches Some(c) && c@ == seq![
        m.base_color[0],
        m.base_color[1],
        m.base_color[2],
        ONE_BITS,
    ]) && p.base_color_texture is None && p.metallic_factor == Some(m.metallic) && p.roughness_factor == Some(
        m.roughness,
    ) && p.metallic_roughness_texture is None
    &&& g.normal_texture is None
    &&& g.occlusion_texture is None
    &&& g.emissive_texture is None
    &&& g.emissive_factor == Some(m.emissive)
    &&& g.alpha_mode is None
    &&& g.alpha_cutoff is None
    &&& g.double_sided == Some(true)
    &&& g.extensions is None
}

/// The triangle primitive of a mesh of sections `secs` whose accessors are the document's
/// accessors `first`, `first + 1`, ...: their attributes (no semantic named twice), the last
/// one's accessor as indices, and `material`.
pub open spec fn export_primitive_of(p: Primitive, secs: Seq<Section>, material: usize, first: int) -> bool {
    &&& entries(p.attributes@) == shifted_entries(attribute_entries_of(secs), first)
    &&& names_distinct(entries(p.attributes@))
    &&& p.indices == Some((first + secs.len() - 1) as usize)
    &&& p.material == Some(material)
    &&& p.mode == Some(4usize)
}

/// `n` is the node `name` showing mesh `mesh`, with no transform or children.
pub open spec fn export_node_of(n: Node, name: Seq<char>, mesh: usize) -> bool {
    &&& opt_view(n.name) == Some(name)
    &&& n.mesh == Some(mesh)
    &&& n.translation is None
    &&& n.rotation is None
    &&& n.scale is None
    &&& n.matrix is None
    &&& n.children is None
}

/// The asset description of exported files: glTF "2.0" by "mesh-tools GLB exporter".
pub open spec fn export_asset(a: Asset) -> bool {
    &&& a.version@ == "2.0"@
    &&& opt_view(a.generator) == Some("mesh-tools GLB exporter"@)
    &&& a.copyright is None
}

/// `g` leaves out every member the exporter does not write.
pub open spec fn export_leaves_out(g: Gltf) -> bool {
    &&& g.textures is None
    &&& g.images is None
    &&& g.samplers is None
    &&& g.animations is None
    &&& g.extensions is None
    &&& g.extensions_used is None
    &&& g.extensions_required is None
    &&& g.extras is None
}

/// The document of one exported mesh: scene 0 holding node 0; node 0, named after the
/// options, showing mesh 0; mesh 0 of the same name with one triangle primitive over the
/// sections and material 0, made of the options' material; one view and one accessor per
/// section; one buffer of `buffer_len` bytes.
pub open spec fn mesh_export_document(g: Gltf, secs: Seq<Section>, o: GlbExportOptions, buffer_len: int) -> bool {
    &&& export_asset(g.asset)
    &&& g.scene == Some(0usize)
    &&& g.scenes matches Some(scenes) && scenes@.len() == 1 && scenes@[0].name is None && (
    scenes@[0].nodes matches Some(ns) && ns@ == seq![0usize])
    &&& g.nodes matches Some(nodes) && nodes@.len() == 1 && export_node_of(nodes@[0], o.name@, 0)
    &&& g.meshes matches Some(meshes) && meshes@.len() == 1 && opt_view(meshes@[0].name) == Some(o.name@)
        && meshes@[0].primitives@.len() == 1 && export_primitive_of(meshes@[0].primitives@[0], secs, 0, 0)
    &&& g.materials matches Some(ms) && ms@.len() == 1 && material_of(ms@[0], o.material)
    &&& g.accessors matches Some(accessors) && g.buffer_views matches Some(views) && model_layout_of(
        views@,
        accessors@,
        secs,
        0,
        0,
    )
    &&& g.buffers matches Some(buffers) && buffers@.len() == 1 && buffers@[0].byte_length == buffer_len
        && buffers@[0].uri is None
    &&& export_leaves_out(g)
}

/// Adds one section to the binary buffer and its view, accessor and attribute entry to the
/// lists (the view placed at the buffer's current end).
fn push_export_section(
    binary: &mut Vec<u8>,
    views: &mut Vec<BufferView>,
    accessors: &mut Vec<Accessor>,
    attributes: &mut Vec<(String, usize)>,
    data: &[u8],
    target: u32,
    component_type: u32,
    count: usize,
    kind: &str,
    attribute: Option<&str>,
    bounds: Option<(Vec<FloatBits>, Vec<FloatBits>)>,
    normalized: bool,
    first: usize,
    Ghost(secs): Ghost<Seq<Section>>,
    Ghost(base): Ghost<int>,
    Ghost(name): Ghost<Seq<char>>,
)
    requires
        old(binary)@.len() == base + sections_data(secs).len(),
        model_layout_of(old(views)@, old(accessors)@, secs, base, first as int),
        entries(old(attributes)@) == shifted_entries(attribute_entries_of(secs), first as int),
        first + secs.len() < usize::MAX,
    ensures
        ({
            let sec = Section {
                name,
                data: data@,
                target,
                component_type,
                count: count as int,
                kind: kind@,
                attribute: opt_str(attribute),
                bounds: bounds_values(bounds),
                normalized,
            };
            &&& final(binary)@ == old(binary)@ + data@
            &&& model_layout_of(final(views)@, final(accessors)@, secs.push(sec), base, first as int)
            &&& entries(final(attributes)@) == shifted_entries(attribute_entries_of(secs.push(sec)), first as int)
        }),
{
    let ghost sec = Section {
        name,
        data: data@,
        target,
        component_type,
        count: count as int,
        kind: kind@,
        attribute: opt_str(attribute),
        bounds: bounds_values(bounds),
        normalized,
    };
    let ghost new_secs = secs.push(sec);
    reveal(model_layout_of);
    let offset = binary.len();
    let index = first + views.len();
    let mut i: usize = 0;
    let ghost start = binary@;
    while i < data.len()
        invariant
            i <= data@.len(),
            binary@ == start + data@.subrange(0, i as int),
        decreases data@.len() - i,
    {
        binary.push(data[i]);
        i = i + 1;
        assert(binary@ =~= start + data@.subrange(0, i as int));
    }
    assert(data@.subrange(0, i as int) =~= data@);
    views.push(
        BufferView {
            buffer: 0,
            byte_offset: offset,
            byte_length: data.len(),
            byte_stride: None,
            target: Some(target as usize),
        },
    );
    let (min, max) = match bounds {
        Some((lo, hi)) => (Some(lo), Some(hi)),
        None => (None, None),
    };
    accessors.push(
        Accessor {
            buffer_view: index,
            component_type: component_type as usize,
            count,
            type_: kind.to_string(),
            byte_offset: None,
            min,
            max,
            normalized: if normalized { Some(true) } else { None },
        },
    );
    match attribute {
        Some(a) => {
            attributes.push((a.to_string(), index));
        },
        None => {},
    }
    proof {
        assert(new_secs.drop_last() =~= secs);
        assert(new_secs.subrange(0, secs.len() as int) =~= secs);
        assert forall|j: int| 0 <= j < new_secs.len() implies #[trigger] model_view_of(
            views@[j],
            new_secs[j],
            base + section_offset(new_secs, j),
        ) by {
            if j < secs.len() {
                assert(new_secs.subrange(0, j) =~= secs.subrange(0, j));
                assert(model_view_of(old(views)@[j], secs[j], base + section_offset(secs, j)));
            }
        }
        assert forall|j: int| 0 <= j < new_secs.len() implies #[trigger] model_accessor_of(
            accessors@[j],
            new_secs[j],
            first + j,
        ) by {
            if j < secs.len() {
                assert(model_accessor_of(old(accessors)@[j], secs[j], first + j));
            }
        }
        let prev = attribute_entries_of(secs);
        assert(views@.len() == new_secs.len());
        match attribute {
            Some(a) => {
                assert(attribute_entries_of(new_secs) == prev.push((a@, secs.len() as usize)));
                assert(shifted_entries(prev.push((a@, secs.len() as usize)), first as int) =~= shifted_entries(
                    prev,
                    first as int,
                ).push((a@, index)));
                assert(entries(attributes@) =~= entries(old(attributes)@).push((a@, index)));
            },
            None => {
                assert(attribute_entries_of(new_secs) == prev);
                assert(attributes@ == old(attributes)@);
            },
        }
        assert(entries(attributes@) =~= shifted_entries(attribute_entries_of(new_secs), first as int));
    }
}

/// The glTF material of the exporter's material (see [`material_of`]).
fn gltf_material(m: &Material) -> (g: GltfMaterial)
    ensures
        material_of(g, *m),
{
    let pbr = PbrMetallicRoughness {
        base_color_factor: Some([m.base_color[0], m.base_color[1], m.base_color[2], ONE_BITS]),
        base_color_texture: None,
        metallic_factor: Some(m.metallic),
        roughness_factor: Some(m.roughness),
        metallic_roughness_texture: None,
    };
    let g = GltfMaterial {
        name: Some(m.name.clone()),
        pbr_metallic_roughness: Some(pbr),
        normal_texture: None,
        occlusion_texture: None,
        emissive_texture: None,
        emissive_factor: Some(m.emissive),
        alpha_mode: None,
        alpha_cutoff: None,
        double_sided: Some(true),
        extensions: None,
    };
    assert(pbr.base_color_factor->0@ =~= seq![m.base_color[0], m.base_color[1], m.base_color[2], ONE_BITS]);
    g
}

/// The asset description of exported files.
fn export_asset_value() -> (a: Asset)
    ensures
        export_asset(a),
{
    Asset { version: "2.0".to_string(), generator: Some("mesh-tools GLB exporter".to_string()), copyright: None }
}

/// Checks that the mesh has every attribute the options ask to export.
fn check_attributes(mesh: &VertexMesh, options: &GlbExportOptions) -> (r: Result<(), ExportError>)
    ensures
        match r {
            Ok(()) => missing_attribute(mesh.vertices@, *options) is None,
            Err(ExportError::MissingAttributes(msg)) => missing_attribute(mesh.vertices@, *options) == Some(msg@),
            Err(_) => false,
        },
{
    if options.export_normals && !mesh.has_normals() {
        return Err(ExportError::MissingAttributes("Mesh doesn't have normals but export_normals is true".to_string()));
    }
    if options.export_uvs && !mesh.has_uvs() {
        return Err(ExportError::MissingAttributes("Mesh doesn't have UVs but export_uvs is true".to_string()));
    }
    if options.export_tangents && !mesh.has_tangents() {
        return Err(ExportError::MissingAttributes("Mesh doesn't have tangents but export_tangents is true".to_string()));
    }
    if options.export_colors && !mesh.has_colors() {
        return Err(ExportError::MissingAttributes("Mesh doesn't have colors but export_colors is true".to_string()));
    }
    Ok(())
}

/// The bounds as two lists of three values.
fn bounds_lists(bounds: ([FloatBits; 3], [FloatBits; 3])) -> (r: (Vec<FloatBits>, Vec<FloatBits>))
    ensures
        r.0@ == bounds.0@,
        r.1@ == bounds.1@,
{
    broadcast use vstd::array::group_array_axioms;

    let lo = vec![bounds.0[0], bounds.0[1], bounds.0[2]];
    let hi = vec![bounds.1[0], bounds.1[1], bounds.1[2]];
    assert(lo@ =~= bounds.0@);
    assert(hi@ =~= bounds.1@);
    (lo, hi)
}

proof fn lemma_default_tangent()
    ensures
        [ONE_BITS, 0, 0, ONE_BITS] == default_tangent(),
{
    broadcast use vstd::array::group_array_axioms;

    assert([ONE_BITS, 0, 0, ONE_BITS] =~= default_tangent());
}

/// The bytes of the sections grow by the bytes of each added section.
proof fn lemma_sections_data_push(secs: Seq<Section>, sec: Section)
    ensures
        sections_data(secs.push(sec)) == sections_data(secs) + sec.data,
{
    assert(secs.push(sec).drop_last() =~= secs);
}

/// Adds a section of float arrays (see [`attribute_section`]), marked `normalized` or not.
fn push_float_section<const N: usize>(
    binary: &mut Vec<u8>,
    views: &mut Vec<BufferView>,
    accessors: &mut Vec<Accessor>,
    attributes: &mut Vec<(String, usize)>,
    values: &[[FloatBits; N]],
    kind: &str,
    attribute: &str,
    bounds: Option<(Vec<FloatBits>, Vec<FloatBits>)>,
    normalized: bool,
    first: usize,
    Ghost(secs): Ghost<Seq<Section>>,
    Ghost(base): Ghost<int>,
    Ghost(name): Ghost<Seq<char>>,
)
    requires
        old(binary)@ .len() == base + sections_data(secs).len(),
        model_layout_of(old(views)@, old(accessors)@, secs, base, first as int),
        entries(old(attributes)@) == shifted_entries(attribute_entries_of(secs), first as int),
        first + secs.len() < usize::MAX,
    ensures
        ({
            let sec = Section {
                normalized,
                ..attribute_section(name, values@, kind@, attribute@, bounds_values(bounds))
            };
            &&& final(binary)@ == old(binary)@ + sec.data
            &&& model_layout_of(final(views)@, final(accessors)@, secs.push(sec), base, first as int)
            &&& entries(final(attributes)@) == shifted_entries(attribute_entries_of(secs.push(sec)), first as int)
        }),
{
    let mut bytes: Vec<u8> = Vec::new();
    append_arrays_le(&mut bytes, values);
    assert(bytes@ =~= crate::bytes::u32s_le(crate::bytes::flatten(values@)));
    push_export_section(
        binary, views, accessors, attributes, bytes.as_slice(), 34962, 5126, values.len(), kind,
        Some(attribute), bounds, normalized, first, Ghost(secs), Ghost(base), Ghost(name),
    );
}

/// The index section with 32-bit (`wide`) or 16-bit indices.
pub open spec fn index_section_with(vs: Seq<Vertex>, fs: Seq<Face>, wide: bool) -> Section {
    Section {
        name: "indices"@,
        data: if wide {
            crate::vertex_mesh::indices_u32_le(crate::vertex_mesh::face_indices(fs))
        } else {
            crate::vertex_mesh::indices_u16_le(crate::vertex_mesh::face_indices(fs))
        },
        target: 34963,
        component_type: if wide { 5125 } else { 5123 },
        count: 3 * fs.len() as int,
        kind: "SCALAR"@,
        attribute: None,
        bounds: None,
        normalized: false,
    }
}

/// The sections of a mesh with the chosen attributes, default normal and index width:
/// positions, then normals, texture coordinates, tangents and colours where chosen, then the
/// indices.
pub open spec fn mesh_sections_with(
    vs: Seq<Vertex>,
    fs: Seq<Face>,
    normals: bool,
    uvs: bool,
    tangents: bool,
    colors: bool,
    normal_default: [FloatBits; 3],
    wide_indices: bool,
    bounds: ([FloatBits; 3], [FloatBits; 3]),
) -> Seq<Section> {
    let s0 = seq![attribute_section("positions"@, positions_of(vs), "VEC3"@, "POSITION"@, Some((bounds.0@, bounds.1@)))];
    let s1 = if normals {
        s0.push(attribute_section("normals"@, normals_or(vs, normal_default), "VEC3"@, "NORMAL"@, None))
    } else {
        s0
    };
    let s2 = if uvs {
        s1.push(attribute_section("texcoords"@, uvs_or(vs, [0, 0]), "VEC2"@, "TEXCOORD_0"@, None))
    } else {
        s1
    };
    let s3 = if tangents {
        s2.push(attribute_section("tangents"@, tangents_or(vs, default_tangent()), "VEC4"@, "TANGENT"@, None))
    } else {
        s2
    };
    let s4 = if colors {
        s3.push(color_section(vs))
    } else {
        s3
    };
    s4.push(index_section_with(vs, fs, wide_indices))
}

/// The state of the section lists while a mesh is laid out: `binary` is `start` followed by
/// the sections' bytes, and views, accessors and attribute entries describe the sections.
pub open spec fn laid_out(
    binary: Seq<u8>,
    views: Seq<BufferView>,
    accessors: Seq<Accessor>,
    attributes: Seq<(String, usize)>,
    start: Seq<u8>,
    base: int,
    first: int,
    secs: Seq<Section>,
) -> bool {
    &&& start.len() == base
    &&& binary == start + sections_data(secs)
    &&& model_layout_of(views, accessors, secs, base, first)
    &&& entries(attributes) == shifted_entries(attribute_entries_of(secs), first)
    &&& secs.len() < 6
    &&& 0 <= first && first + 6 < usize::MAX
}

/// Adds the normal section when `wanted` holds.
fn push_normals_if(
    binary: &mut Vec<u8>,
    views: &mut Vec<BufferView>,
    accessors: &mut Vec<Accessor>,
    attributes: &mut Vec<(String, usize)>,
    mesh: &VertexMesh,
    wanted: bool,
    normal_default: [FloatBits; 3],
    first: usize,
    Ghost(secs): Ghost<Seq<Section>>,
    Ghost(start): Ghost<Seq<u8>>,
    Ghost(base): Ghost<int>,
) -> (r: Ghost<Seq<Section>>)
    requires
        laid_out(old(binary)@, old(views)@, old(accessors)@, old(attributes)@, start, base, first as int, secs),
        secs.len() < 2,
    ensures
        laid_out(final(binary)@, final(views)@, final(accessors)@, final(attributes)@, start, base, first as int, r@),
        r@ == if wanted {
            secs.push(attribute_section("normals"@, normals_or(mesh.vertices@, normal_default), "VEC3"@, "NORMAL"@, None))
        } else {
            secs
        },
{
    if wanted {
        let values = collect_normals(mesh.vertices.as_slice(), normal_default);
        push_float_section(
            binary, views, accessors, attributes, values.as_slice(), "VEC3", "NORMAL", None, false, first,
            Ghost(secs), Ghost(base), Ghost("normals"@),
        );
        let ghost sec = attribute_section("normals"@, normals_or(mesh.vertices@, normal_default), "VEC3"@, "NORMAL"@, None);
        proof {
            lemma_sections_data_push(secs, sec);
            assert(binary@ =~= start + sections_data(secs.push(sec)));
        }
        Ghost(secs.push(sec))
    } else {
        Ghost(secs)
    }
}

/// Adds the texture-coordinate section when `wanted` holds.
fn push_uvs_if(
    binary: &mut Vec<u8>,
    views: &mut Vec<BufferView>,
    accessors: &mut Vec<Accessor>,
    attributes: &mut Vec<(String, usize)>,
    mesh: &VertexMesh,
    wanted: bool,
    first: usize,
    Ghost(secs): Ghost<Seq<Section>>,
    Ghost(start): Ghost<Seq<u8>>,
    Ghost(base): Ghost<int>,
) -> (r: Ghost<Seq<Section>>)
    requires
        laid_out(old(binary)@, old(views)@, old(accessors)@, old(attributes)@, start, base, first as int, secs),
        secs.len() < 3,
    ensures
        laid_out(final(binary)@, final(views)@, final(accessors)@, final(attributes)@, start, base, first as int, r@),
        r@ == if wanted {
            secs.push(attribute_section("texcoords"@, uvs_or(mesh.vertices@, [0, 0]), "VEC2"@, "TEXCOORD_0"@, None))
        } else {
            secs
        },
{
    if wanted {
        let values = collect_uvs(mesh.vertices.as_slice(), [0, 0]);
        push_float_section(
            binary, views, accessors, attributes, values.as_slice(), "VEC2", "TEXCOORD_0", None, false, first,
            Ghost(secs), Ghost(base), Ghost("texcoords"@),
        );
        let ghost sec = attribute_section("texcoords"@, uvs_or(mesh.vertices@, [0, 0]), "VEC2"@, "TEXCOORD_0"@, None);
        proof {
            lemma_sections_data_push(secs, sec);
            assert(binary@ =~= start + sections_data(secs.push(sec)));
        }
        Ghost(secs.push(sec))
    } else {
        Ghost(secs)
    }
}

/// Adds the tangent section when `wanted` holds.
fn push_tangents_if(
    binary: &mut Vec<u8>,
    views: &mut Vec<BufferView>,
    accessors: &mut Vec<Accessor>,
    attributes: &mut Vec<(String, usize)>,
    mesh: &VertexMesh,
    wanted: bool,
    first: usize,
    Ghost(secs): Ghost<Seq<Section>>,
    Ghost(start): Ghost<Seq<u8>>,
    Ghost(base): Ghost<int>,
) -> (r: Ghost<Seq<Section>>)
    requires
        laid_out(old(binary)@, old(views)@, old(accessors)@, old(attributes)@, start, base, first as int, secs),
        secs.len() < 4,
    ensures
        laid_out(final(binary)@, final(views)@, final(accessors)@, final(attributes)@, start, base, first as int, r@),
        r@ == if wanted {
            secs.push(attribute_section("tangents"@, tangents_or(mesh.vertices@, default_tangent()), "VEC4"@, "TANGENT"@, None))
        } else {
            secs
        },
{
    if wanted {
        let values = collect_tangents(mesh.vertices.as_slice(), [ONE_BITS, 0, 0, ONE_BITS]);
        proof {
            lemma_default_tangent();
        }
        push_float_section(
            binary, views, accessors, attributes, values.as_slice(), "VEC4", "TANGENT", None, false, first,
            Ghost(secs), Ghost(base), Ghost("tangents"@),
        );
        let ghost sec = attribute_section("tangents"@, tangents_or(mesh.vertices@, default_tangent()), "VEC4"@, "TANGENT"@, None);
        proof {
            lemma_sections_data_push(secs, sec);
            assert(binary@ =~= start + sections_data(secs.push(sec)));
        }
        Ghost(secs.push(sec))
    } else {
        Ghost(secs)
    }
}

/// Adds the colour section when `wanted` holds.
fn push_colors_if(
    binary: &mut Vec<u8>,
    views: &mut Vec<BufferView>,
    accessors: &mut Vec<Accessor>,
    attributes: &mut Vec<(String, usize)>,
    mesh: &VertexMesh,
    wanted: bool,
    first: usize,
    Ghost(secs): Ghost<Seq<Section>>,
    Ghost(start): Ghost<Seq<u8>>,
    Ghost(base): Ghost<int>,
) -> (r: Ghost<Seq<Section>>)
    requires
        laid_out(old(binary)@, old(views)@, old(accessors)@, old(attributes)@, start, base, first as int, secs),
        secs.len() < 5,
    ensures
        laid_out(final(binary)@, final(views)@, final(accessors)@, final(attributes)@, start, base, first as int, r@),
        r@ == if wanted { secs.push(color_section(mesh.vertices@)) } else { secs },
{
    if wanted {
        let values = collect_opaque_colors(mesh.vertices.as_slice());
        push_float_section(
            binary, views, accessors, attributes, values.as_slice(), "VEC4", "COLOR_0", None, true, first,
            Ghost(secs), Ghost(base), Ghost("colors"@),
        );
        let ghost sec = color_section(mesh.vertices@);
        proof {
            lemma_sections_data_push(secs, sec);
            assert(binary@ =~= start + sections_data(secs.push(sec)));
        }
        Ghost(secs.push(sec))
    } else {
        Ghost(secs)
    }
}

/// Lays out the sections of `mesh` (see [`mesh_sections_with`]) at the end of `binary`,
/// adding a view (placed from `base` on), an accessor and an attribute entry per section.
fn push_mesh_sections(
    binary: &mut Vec<u8>,
    views: &mut Vec<BufferView>,
    accessors: &mut Vec<Accessor>,
    attributes: &mut Vec<(String, usize)>,
    mesh: &VertexMesh,
    normals: bool,
    uvs: bool,
    tangents: bool,
    colors: bool,
    normal_default: [FloatBits; 3],
    wide_indices: bool,
    bounds: ([FloatBits; 3], [FloatBits; 3]),
    first: usize,
    Ghost(base): Ghost<int>,
) -> (secs: Ghost<Seq<Section>>)
    requires
        old(binary)@.len() == base,
        old(views)@.len() == 0,
        old(accessors)@.len() == 0,
        old(attributes)@.len() == 0,
        3 * mesh.triangles@.len() <= usize::MAX,
        first + 6 < usize::MAX,
    ensures
        final(binary)@ == old(binary)@ + sections_data(secs@),
        model_layout_of(final(views)@, final(accessors)@, secs@, base, first as int),
        entries(final(attributes)@) == shifted_entries(attribute_entries_of(secs@), first as int),
        names_distinct(entries(final(attributes)@)),
        secs@.len() <= 6,
        secs@ == mesh_sections_with(
            mesh.vertices@,
            mesh.triangles@,
            normals,
            uvs,
            tangents,
            colors,
            normal_default,
            wide_indices,
            bounds,
        ),
{
    let ghost vs = mesh.vertices@;
    let ghost fs = mesh.triangles@;
    let ghost start = binary@;
    let ghost mut secs: Seq<Section> = Seq::empty();
    assert(entries(attributes@) =~= shifted_entries(attribute_entries_of(secs), first as int));
    assert(sections_data(secs) =~= Seq::<u8>::empty());
    assert(model_layout_of(views@, accessors@, secs, base, first as int)) by {
        reveal(model_layout_of);
    }

    let positions = collect_positions(mesh.vertices.as_slice());
    let (lo, hi) = bounds_lists(bounds);
    push_float_section(
        binary, views, accessors, attributes, positions.as_slice(), "VEC3", "POSITION", Some((lo, hi)), false, first,
        Ghost(secs), Ghost(base), Ghost("positions"@),
    );
    proof {
        let sec = attribute_section("positions"@, positions_of(vs), "VEC3"@, "POSITION"@, Some((bounds.0@, bounds.1@)));
        lemma_sections_data_push(secs, sec);
        secs = secs.push(sec);
    }
    let Ghost(secs1) = push_normals_if(binary, views, accessors, attributes, mesh, normals, normal_default, first, Ghost(secs), Ghost(start), Ghost(base));
    let Ghost(secs2) = push_uvs_if(binary, views, accessors, attributes, mesh, uvs, first, Ghost(secs1), Ghost(start), Ghost(base));
    let Ghost(secs3) = push_tangents_if(binary, views, accessors, attributes, mesh, tangents, first, Ghost(secs2), Ghost(start), Ghost(base));
    let Ghost(secs4) = push_colors_if(binary, views, accessors, attributes, mesh, colors, first, Ghost(secs3), Ghost(start), Ghost(base));
    proof {
        secs = secs4;
    }
    let mut bytes: Vec<u8> = Vec::new();
    append_face_indices(&mut bytes, mesh.triangles.as_slice(), wide_indices);
    let count = 3 * mesh.triangles.len();
    let component_type: u32 = if wide_indices { 5125 } else { 5123 };
    push_export_section(
        binary, views, accessors, attributes, bytes.as_slice(), 34963, component_type, count, "SCALAR",
        None, None, false, first, Ghost(secs), Ghost(base), Ghost("indices"@),
    );
    proof {
        let sec = index_section_with(vs, fs, wide_indices);
        lemma_sections_data_push(secs, sec);
        secs = secs.push(sec);
        lemma_sections_with_distinct(vs, fs, normals, uvs, tangents, colors, normal_default, wide_indices, bounds);
        lemma_entries_names_distinct(secs);
        lemma_shifted_names_distinct(attribute_entries_of(secs), first as int);
    }
    Ghost(secs)
}

/// Moving the accessor indices keeps the semantics apart.
proof fn lemma_shifted_names_distinct(es: Seq<(Seq<char>, usize)>, first: int)
    requires
        names_distinct(es),
    ensures
        names_distinct(shifted_entries(es, first)),
{
    let sh = shifted_entries(es, first);
    assert forall|i: int, j: int| 0 <= i < j < sh.len() implies #[trigger] sh[i].0 != #[trigger] sh[j].0 by {
        assert(sh[i].0 == es[i].0 && sh[j].0 == es[j].0);
    }
}

/// The sections of a mesh laid out by [`push_mesh_sections`] carry distinct attributes.
proof fn lemma_sections_with_distinct(
    vs: Seq<Vertex>,
    fs: Seq<Face>,
    normals: bool,
    uvs: bool,
    tangents: bool,
    colors: bool,
    normal_default: [FloatBits; 3],
    wide_indices: bool,
    bounds: ([FloatBits; 3], [FloatBits; 3]),
)
    ensures
        attributes_distinct(
            mesh_sections_with(vs, fs, normals, uvs, tangents, colors, normal_default, wide_indices, bounds),
        ),
{
    lemma_semantics_differ();
    let s0 = seq![attribute_section("positions"@, positions_of(vs), "VEC3"@, "POSITION"@, Some((bounds.0@, bounds.1@)))];
    let c1: Seq<Section> = if normals {
        seq![attribute_section("normals"@, normals_or(vs, normal_default), "VEC3"@, "NORMAL"@, None)]
    } else {
        Seq::empty()
    };
    let c2: Seq<Section> = if uvs {
        seq![attribute_section("texcoords"@, uvs_or(vs, [0, 0]), "VEC2"@, "TEXCOORD_0"@, None)]
    } else {
        Seq::empty()
    };
    let c3: Seq<Section> = if tangents {
        seq![attribute_section("tangents"@, tangents_or(vs, default_tangent()), "VEC4"@, "TANGENT"@, None)]
    } else {
        Seq::empty()
    };
    let c4: Seq<Section> = if colors {
        seq![color_section(vs)]
    } else {
        Seq::empty()
    };
    let n0 = seq!["POSITION"@];
    assert(attributes_within(s0, n0)) by {
        assert(n0[0] == "POSITION"@);
    }
    lemma_attributes_extend(s0, c1, n0, "NORMAL"@);
    let n1 = n0.push("NORMAL"@);
    lemma_attributes_extend(s0 + c1, c2, n1, "TEXCOORD_0"@);
    let n2 = n1.push("TEXCOORD_0"@);
    lemma_attributes_extend(s0 + c1 + c2, c3, n2, "TANGENT"@);
    let n3 = n2.push("TANGENT"@);
    lemma_attributes_extend(s0 + c1 + c2 + c3, c4, n3, "COLOR_0"@);
    lemma_attributes_extend_plain(s0 + c1 + c2 + c3 + c4, index_section_with(vs, fs, wide_indices));
    assert(mesh_sections_with(vs, fs, normals, uvs, tangents, colors, normal_default, wide_indices, bounds)
        =~= (s0 + c1 + c2 + c3 + c4).push(index_section_with(vs, fs, wide_indices)));
}

/// Exports a mesh as the two parts of a GLB file: the glTF document (see
/// [`mesh_export_document`]) and the binary buffer (see [`export_sections`], padded with
/// zeros to a multiple of four). `bounds` are the smallest and largest position coordinates,
/// recorded on the position accessor. Fails with [`ExportError::MissingAttributes`] when the
/// options ask for an attribute that no vertex has (see [`missing_attribute`]).
pub fn export_to_glb(mesh: &VertexMesh, options: &GlbExportOptions, bounds: ([FloatBits; 3], [FloatBits; 3])) -> (r: Result<(Gltf, Vec<u8>), ExportError>)
    requires
        3 * mesh.triangles@.len() <= usize::MAX,
    ensures
        ({
            let secs = export_sections(mesh.vertices@, mesh.triangles@, *options, bounds);
            match r {
                Ok((g, bin)) => {
                    &&& missing_attribute(mesh.vertices@, *options) is None
                    &&& bin@ == padded_data(secs)
                    &&& mesh_export_document(g, secs, *options, bin@.len() as int)
                },
                Err(ExportError::MissingAttributes(msg)) => missing_attribute(mesh.vertices@, *options) == Some(msg@),
                Err(_) => false,
            }
        }),
{
    match check_attributes(mesh, options) {
        Ok(()) => {},
        Err(e) => {
            return Err(e);
        },
    }
    let mut binary: Vec<u8> = Vec::new();
    let mut views: Vec<BufferView> = Vec::new();
    let mut accessors: Vec<Accessor> = Vec::new();
    let mut attributes: Vec<(String, usize)> = Vec::new();
    let wide = mesh.vertices.len() > 65535;
    let Ghost(secs) = push_mesh_sections(
        &mut binary, &mut views, &mut accessors, &mut attributes, mesh,
        options.export_normals, options.export_uvs, options.export_tangents, options.export_colors,
        [0, 0, ONE_BITS], wide, bounds, 0, Ghost(0),
    );
    proof {
        lemma_z_normal();
    }
    proof {
        reveal(model_layout_of);
        assert(binary@ =~= sections_data(secs));
    }
    let pad = padding_for(binary.len());
    append_fill(&mut binary, 0, pad);
    let index_accessor = accessors.len() - 1;
    let primitive = Primitive { attributes, indices: Some(index_accessor), material: Some(0), mode: Some(4) };
    let mut primitives: Vec<Primitive> = Vec::new();
    primitives.push(primitive);
    let mut meshes: Vec<Mesh> = Vec::new();
    meshes.push(Mesh { name: Some(options.name.clone()), primitives });
    let mut nodes: Vec<Node> = Vec::new();
    nodes.push(
        Node {
            name: Some(options.name.clone()),
            mesh: Some(0),
            translation: None,
            rotation: None,
            scale: None,
            matrix: None,
            children: None,
        },
    );
    let mut scene_nodes: Vec<usize> = Vec::new();
    scene_nodes.push(0);
    let mut scenes: Vec<Scene> = Vec::new();
    scenes.push(Scene { name: None, nodes: Some(scene_nodes) });
    let mut materials: Vec<GltfMaterial> = Vec::new();
    materials.push(gltf_material(&options.material));
    let mut buffers: Vec<Buffer> = Vec::new();
    buffers.push(Buffer { byte_length: binary.len(), uri: None });
    let g = Gltf {
        asset: export_asset_value(),
        scene: Some(0),
        scenes: Some(scenes),
        nodes: Some(nodes),
        meshes: Some(meshes),
        accessors: Some(accessors),
        buffer_views: Some(views),
        buffers: Some(buffers),
        materials: Some(materials),
        textures: None,
        images: None,
        samplers: None,
        animations: None,
        extensions: None,
        extensions_used: None,
        extensions_required: None,
        extras: None,
    };
    Ok((g, binary))
}

/// A mesh of an exported scene, with its own material or none (then the options' material
/// is used).
#[derive(Debug)]
pub struct SceneMesh {
    /// The geometry.
    pub mesh: VertexMesh,
    /// The material of this mesh.
    pub material: Option<Material>,
}

/// A named collection of meshes exported together into one file.
#[derive(Debug)]
pub struct MeshScene {
    /// The name of the scene.
    pub name: String,
    /// The meshes.
    pub meshes: Vec<SceneMesh>,
}

/// The sections written for one mesh of a scene: positions (with `bounds`), then the
/// attributes the options ask for (normals defaulting to (0, 1, 0)), left out when the mesh
/// has no vertex, then 32-bit indices.
pub open spec fn scene_mesh_sections(m: SceneMesh, o: GlbExportOptions, bounds: ([FloatBits; 3], [FloatBits; 3])) -> Seq<Section> {
    let vs = m.mesh.vertices@;
    let nonempty = vs.len() > 0;
    mesh_sections_with(
        vs,
        m.mesh.triangles@,
        o.export_normals && nonempty,
        o.export_uvs && nonempty,
        o.export_tangents && nonempty,
        o.export_colors && nonempty,
        up_normal(),
        true,
        bounds,
    )
}

/// The bytes written for the first `k` meshes of a scene, mesh after mesh.
pub open spec fn scene_data(
    ms: Seq<SceneMesh>,
    o: GlbExportOptions,
    bounds: Seq<([FloatBits; 3], [FloatBits; 3])>,
    k: int,
) -> Seq<u8>
    decreases k,
{
    if k <= 0 {
        Seq::empty()
    } else {
        scene_data(ms, o, bounds, k - 1) + sections_data(scene_mesh_sections(ms[k - 1], o, bounds[k - 1]))
    }
}

/// The number of sections (views, accessors) of the first `k` meshes of a scene.
pub open spec fn scene_section_count(
    ms: Seq<SceneMesh>,
    o: GlbExportOptions,
    bounds: Seq<([FloatBits; 3], [FloatBits; 3])>,
    k: int,
) -> int
    decreases k,
{
    if k <= 0 {
        0
    } else {
        scene_section_count(ms, o, bounds, k - 1) + scene_mesh_sections(ms[k - 1], o, bounds[k - 1]).len()
    }
}

/// The name of the node and mesh of the `i`-th mesh of a scene: `Mesh_` followed by `i`.
pub open spec fn scene_mesh_name(i: nat) -> Seq<char> {
    "Mesh_"@ + decimal(i)
}

/// The material of a scene mesh: its own, or the options' one.
pub open spec fn chosen_material(m: SceneMesh, o: GlbExportOptions) -> Material {
    match m.material {
        Some(mat) => mat,
        None => o.material,
    }
}

/// The views and accessors of the first `k` meshes of a scene: mesh after mesh, those of
/// mesh `i` describe its sections, the views placed where the mesh's bytes are and each
/// accessor reading the view of the same index.
#[verifier::opaque]
pub open spec fn scene_layout(
    views: Seq<BufferView>,
    accessors: Seq<Accessor>,
    ms: Seq<SceneMesh>,
    o: GlbExportOptions,
    bounds: Seq<([FloatBits; 3], [FloatBits; 3])>,
    k: int,
) -> bool {
    &&& views.len() == scene_section_count(ms, o, bounds, k)
    &&& accessors.len() == scene_section_count(ms, o, bounds, k)
    &&& forall|i: int, j: int|
        0 <= i < k && 0 <= j < scene_mesh_sections(ms[i], o, bounds[i]).len() ==> {
            let secs = scene_mesh_sections(ms[i], o, bounds[i]);
            let at = #[trigger] (scene_section_count(ms, o, bounds, i) + j);
            &&& model_view_of(views[at], secs[j], scene_data(ms, o, bounds, i).len() + section_offset(secs, j))
            &&& model_accessor_of(accessors[at], secs[j], at)
        }
}

/// The document of an exported scene: scene 0, named after the scene, holding nodes 0 to
/// k - 1; node `i`, named `Mesh_i`, showing mesh `i`; mesh `i` of the same name with one
/// triangle primitive over its sections (its accessors follow those of the meshes before it)
/// and material `i`, made of the mesh's material or the options' one; the views and
/// accessors of [`scene_layout`]; one buffer of `buffer_len` bytes.
pub open spec fn scene_export_document(
    g: Gltf,
    scene: MeshScene,
    o: GlbExportOptions,
    bounds: Seq<([FloatBits; 3], [FloatBits; 3])>,
    buffer_len: int,
) -> bool {
    let ms = scene.meshes@;
    let k = ms.len() as int;
    &&& export_asset(g.asset)
    &&& g.scene == Some(0usize)
    &&& g.scenes matches Some(scenes) && scenes@.len() == 1 && opt_view(scenes@[0].name) == Some(scene.name@) && (
    scenes@[0].nodes matches Some(ns) && ns@ == Seq::new(k as nat, |i: int| i as usize))
    &&& g.nodes matches Some(nodes) && nodes@.len() == k && forall|i: int|
        0 <= i < k ==> #[trigger] export_node_of(nodes@[i], scene_mesh_name(i as nat), i as usize)
    &&& g.meshes matches Some(meshes) && meshes@.len() == k && forall|i: int|
        0 <= i < k ==> #[trigger] scene_mesh_entry(meshes@[i], ms, o, bounds, i)
    &&& g.materials matches Some(mats) && mats@.len() == k && forall|i: int|
        0 <= i < k ==> #[trigger] material_of(mats@[i], chosen_material(ms[i], o))
    &&& g.accessors matches Some(accessors) && g.buffer_views matches Some(views) && scene_layout(
        views@,
        accessors@,
        ms,
        o,
        bounds,
        k,
    )
    &&& g.buffers matches Some(buffers) && buffers@.len() == 1 && buffers@[0].byte_length == buffer_len
        && buffers@[0].uri is None
    &&& export_leaves_out(g)
}

/// Mesh `i` of an exported scene: named `Mesh_i`, one primitive over its sections with
/// material `i`, whose accessors start after the sections of the meshes before it.
pub open spec fn scene_mesh_entry(
    m: Mesh,
    ms: Seq<SceneMesh>,
    o: GlbExportOptions,
    bounds: Seq<([FloatBits; 3], [FloatBits; 3])>,
    i: int,
) -> bool {
    &&& opt_view(m.name) == Some(scene_mesh_name(i as nat))
    &&& m.primitives@.len() == 1
    &&& export_primitive_of(
        m.primitives@[0],
        scene_mesh_sections(ms[i], o, bounds[i]),
        i as usize,
        scene_section_count(ms, o, bounds, i),
    )
}

/// Adding the views and accessors of one more mesh extends the scene layout.
proof fn lemma_scene_layout_step(
    views: Seq<BufferView>,
    accessors: Seq<Accessor>,
    lv: Seq<BufferView>,
    la: Seq<Accessor>,
    ms: Seq<SceneMesh>,
    o: GlbExportOptions,
    bounds: Seq<([FloatBits; 3], [FloatBits; 3])>,
    k: int,
)
    requires
        0 <= k < ms.len(),
        scene_layout(views, accessors, ms, o, bounds, k),
        model_layout_of(
            lv,
            la,
            scene_mesh_sections(ms[k], o, bounds[k]),
            scene_data(ms, o, bounds, k).len() as int,
            scene_section_count(ms, o, bounds, k),
        ),
    ensures
        scene_layout(views + lv, accessors + la, ms, o, bounds, k + 1),
{
    reveal(scene_layout);
    reveal(model_layout_of);
    let nv = views + lv;
    let na = accessors + la;
    let c = scene_section_count(ms, o, bounds, k);
    assert forall|i: int, j: int|
        0 <= i < k + 1 && 0 <= j < scene_mesh_sections(ms[i], o, bounds[i]).len() implies {
            let secs = scene_mesh_sections(ms[i], o, bounds[i]);
            let at = #[trigger] (scene_section_count(ms, o, bounds, i) + j);
            &&& model_view_of(nv[at], secs[j], scene_data(ms, o, bounds, i).len() + section_offset(secs, j))
            &&& model_accessor_of(na[at], secs[j], at)
        } by {
        let secs = scene_mesh_sections(ms[i], o, bounds[i]);
        lemma_scene_count_mono(ms, o, bounds, 0, i);
        if i < k {
            lemma_scene_count_mono(ms, o, bounds, i + 1, k);
            assert(scene_section_count(ms, o, bounds, i + 1) == scene_section_count(ms, o, bounds, i) + secs.len());
            let at = scene_section_count(ms, o, bounds, i) + j;
            assert(at < scene_section_count(ms, o, bounds, k));
            assert(at < views.len());
            assert(nv[at] == views[at]);
            assert(na[at] == accessors[at]);
        } else {
            assert(nv[c + j] == lv[j]);
            assert(na[c + j] == la[j]);
            assert(model_view_of(lv[j], secs[j], scene_data(ms, o, bounds, k).len() + section_offset(secs, j)));
            assert(model_accessor_of(la[j], secs[j], c + j));
        }
    }
}

/// The section count grows with the number of meshes.
proof fn lemma_scene_count_mono(
    ms: Seq<SceneMesh>,
    o: GlbExportOptions,
    bounds: Seq<([FloatBits; 3], [FloatBits; 3])>,
    a: int,
    b: int,
)
    requires
        0 <= a <= b,
    ensures
        scene_section_count(ms, o, bounds, a) <= scene_section_count(ms, o, bounds, b),
    decreases b,
{
    if b > a {
        lemma_scene_count_mono(ms, o, bounds, a, b - 1);
    }
}

/// The name `Mesh_i`.
fn scene_mesh_name_string(i: usize) -> (s: String)
    ensures
        s@ == scene_mesh_name(i as nat),
{
    let mut s = "Mesh_".to_string();
    append_decimal(&mut s, i);
    s
}

/// Exports all meshes of a scene as the two parts of one GLB file: the glTF document (see
/// [`scene_export_document`]) and the binary buffer holding the sections of every mesh (see
/// [`scene_mesh_sections`]) one mesh after the other, padded with zeros to a multiple of
/// four. `bounds[i]` are the smallest and largest position coordinates of mesh `i`.
pub fn export_scene_to_glb_with_options(
    scene: &MeshScene,
    options: &GlbExportOptions,
    bounds: &[([FloatBits; 3], [FloatBits; 3])],
) -> (r: (Gltf, Vec<u8>))
    requires
        bounds@.len() == scene.meshes@.len(),
        6 * scene.meshes@.len() < usize::MAX,
        forall|i: int| 0 <= i < scene.meshes@.len() ==> 3 * (#[trigger] scene.meshes@[i]).mesh.triangles@.len() <= usize::MAX,
    ensures
        ({
            let data = scene_data(scene.meshes@, *options, bounds@, scene.meshes@.len() as int);
            &&& r.1@ == data + fill(0, pad4(data.len() as int))
            &&& scene_export_document(r.0, *scene, *options, bounds@, r.1@.len() as int)
        }),
{
    let ghost ms = scene.meshes@;
    let ghost bs = bounds@;
    let k = scene.meshes.len();
    let mut binary: Vec<u8> = Vec::new();
    let mut views: Vec<BufferView> = Vec::new();
    let mut accessors: Vec<Accessor> = Vec::new();
    let mut meshes: Vec<Mesh> = Vec::new();
    let mut nodes: Vec<Node> = Vec::new();
    let mut materials: Vec<GltfMaterial> = Vec::new();
    let mut scene_nodes: Vec<usize> = Vec::new();
    proof {
        reveal(scene_layout);
    }
    let mut i: usize = 0;
    while i < k
        invariant
            i <= k,
            k == ms.len(),
            ms == scene.meshes@,
            bs == bounds@,
            bs.len() == k,
            6 * k < usize::MAX,
            views@.len() == scene_section_count(ms, *options, bs, i as int),
            views@.len() <= 6 * i,
            forall|j: int| 0 <= j < ms.len() ==> 3 * (#[trigger] ms[j]).mesh.triangles@.len() <= usize::MAX,
            binary@ == scene_data(ms, *options, bs, i as int),
            scene_layout(views@, accessors@, ms, *options, bs, i as int),
            meshes@.len() == i,
            forall|j: int| 0 <= j < i ==> #[trigger] scene_mesh_entry(meshes@[j], ms, *options, bs, j),
            nodes@.len() == i,
            forall|j: int| 0 <= j < i ==> #[trigger] export_node_of(nodes@[j], scene_mesh_name(j as nat), j as usize),
            materials@.len() == i,
            forall|j: int| 0 <= j < i ==> #[trigger] material_of(materials@[j], chosen_material(ms[j], *options)),
            scene_nodes@ == Seq::new(i as nat, |j: int| j as usize),
        decreases k - i,
    {
        let sm = &scene.meshes[i];
        let nonempty = sm.mesh.vertices.len() > 0;
        let mut lv: Vec<BufferView> = Vec::new();
        let mut la: Vec<Accessor> = Vec::new();
        let mut lattr: Vec<(String, usize)> = Vec::new();
        let ghost before = binary@;
        let first = views.len();
        let Ghost(secs) = push_mesh_sections(
            &mut binary, &mut lv, &mut la, &mut lattr, &sm.mesh,
            options.export_normals && nonempty, options.export_uvs && nonempty,
            options.export_tangents && nonempty, options.export_colors && nonempty,
            [0, ONE_BITS, 0], true, bounds[i], first, Ghost(before.len() as int),
        );
        proof {
            lemma_up_normal();
            assert(secs == scene_mesh_sections(ms[i as int], *options, bs[i as int]));
            assert(binary@ =~= scene_data(ms, *options, bs, i + 1));
            lemma_scene_layout_step(views@, accessors@, lv@, la@, ms, *options, bs, i as int);
            reveal(model_layout_of);
        }
        let n_local = la.len();
        views.append(&mut lv);
        accessors.append(&mut la);
        let name = scene_mesh_name_string(i);
        let mut primitives: Vec<Primitive> = Vec::new();
        primitives.push(Primitive { attributes: lattr, indices: Some(first + n_local - 1), material: Some(i), mode: Some(4) });
        meshes.push(Mesh { name: Some(name.clone()), primitives });
        nodes.push(
            Node {
                name: Some(name),
                mesh: Some(i),
                translation: None,
                rotation: None,
                scale: None,
                matrix: None,
                children: None,
            },
        );
        let material = match &sm.material {
            Some(m) => m,
            None => &options.material,
        };
        materials.push(gltf_material(material));
        scene_nodes.push(i);
        proof {
            assert(scene_nodes@ =~= Seq::new((i + 1) as nat, |j: int| j as usize));
        }
        i = i + 1;
    }
    let pad = padding_for(binary.len());
    let ghost data = binary@;
    append_fill(&mut binary, 0, pad);
    let mut scenes: Vec<Scene> = Vec::new();
    scenes.push(Scene { name: Some(scene.name.clone()), nodes: Some(scene_nodes) });
    let mut buffers: Vec<Buffer> = Vec::new();
    buffers.push(Buffer { byte_length: binary.len(), uri: None });
    let g = Gltf {
        asset: export_asset_value(),
        scene: Some(0),
        scenes: Some(scenes),
        nodes: Some(nodes),
        meshes: Some(meshes),
        accessors: Some(accessors),
        buffer_views: Some(views),
        buffers: Some(buffers),
        materials: Some(materials),
        textures: None,
        images: None,
        samplers: None,
        animations: None,
        extensions: None,
        extensions_used: None,
        extensions_required: None,
        extras: None,
    };
    (g, binary)
}

/// The first attribute entry of sections whose first section is an attribute names that
/// section's accessor, 0.
proof fn lemma_first_entry(secs: Seq<Section>, a: Seq<char>)
    requires
        secs.len() >= 1,
        secs[0].attribute == Some(a),
    ensures
        attribute_entries_of(secs).len() >= 1,
        attribute_entries_of(secs)[0] == (a, 0usize),
    decreases secs.len(),
{
    let prev = secs.drop_last();
    if secs.len() > 1 {
        assert(prev[0] == secs[0]);
        lemma_first_entry(prev, a);
        let pe = attribute_entries_of(prev);
        match secs.last().attribute {
            Some(b) => {
                assert(attribute_entries_of(secs) == pe.push((b, (secs.len() - 1) as usize)));
            },
            None => {
                assert(attribute_entries_of(secs) == pe);
            },
        }
    } else {
        assert(prev =~= Seq::<Section>::empty());
        assert(attribute_entries_of(prev) =~= Seq::<(Seq<char>, usize)>::empty());
        assert(attribute_entries_of(secs) == attribute_entries_of(prev).push((a, 0usize)));
    }
}

/// In an exported scene every mesh shows its own geometry: node `i` shows mesh `i`, whose
/// primitive uses material `i` and has `POSITION` as its first attribute; that accessor is the
/// first of mesh `i`'s own accessors (those of the earlier meshes come before it), counts mesh
/// `i`'s vertices, and reads the view of the same index, which starts where mesh `i`'s bytes
/// start in the buffer.
pub proof fn lemma_scene_mesh_positions(
    g: Gltf,
    scene: MeshScene,
    o: GlbExportOptions,
    bounds: Seq<([FloatBits; 3], [FloatBits; 3])>,
    buffer_len: int,
    i: int,
)
    requires
        scene_export_document(g, scene, o, bounds, buffer_len),
        0 <= i < scene.meshes@.len(),
    ensures
        ({
            let ms = scene.meshes@;
            let a = scene_section_count(ms, o, bounds, i);
            let p = g.meshes.unwrap()@[i].primitives@[0];
            &&& g.nodes.unwrap()@[i].mesh == Some(i as usize)
            &&& p.material == Some(i as usize)
            &&& p.attributes@.len() >= 1
            &&& p.attributes@[0].0@ == "POSITION"@
            &&& p.attributes@[0].1 == a
            &&& g.accessors.unwrap()@[a].count == ms[i].mesh.vertices@.len()
            &&& g.accessors.unwrap()@[a].buffer_view == a
            &&& g.buffer_views.unwrap()@[a].byte_offset == scene_data(ms, o, bounds, i).len()
        }),
{
    reveal(scene_layout);
    let ms = scene.meshes@;
    let secs = scene_mesh_sections(ms[i], o, bounds[i]);
    let a = scene_section_count(ms, o, bounds, i);
    let p = g.meshes.unwrap()@[i].primitives@[0];
    assert(scene_mesh_entry(g.meshes.unwrap()@[i], ms, o, bounds, i));
    assert(export_node_of(g.nodes.unwrap()@[i], scene_mesh_name(i as nat), i as usize));
    assert(secs[0].attribute == Some("POSITION"@));
    lemma_first_entry(secs, "POSITION"@);
    let es = attribute_entries_of(secs);
    assert(entries(p.attributes@) == shifted_entries(es, a));
    assert(entries(p.attributes@).len() == p.attributes@.len());
    assert(shifted_entries(es, a).len() == es.len());
    assert(entries(p.attributes@)[0] == (p.attributes@[0].0@, p.attributes@[0].1));
    assert(shifted_entries(es, a)[0] == ("POSITION"@, a as usize));
    assert(a + 0 == a);
    assert(secs.subrange(0, 0) =~= Seq::<Section>::empty());
    assert(model_view_of(
        g.buffer_views.unwrap()@[a],
        secs[0],
        scene_data(ms, o, bounds, i).len() + section_offset(secs, 0),
    ));
    assert(model_accessor_of(g.accessors.unwrap()@[a], secs[0], a));
}

proof fn lemma_z_normal()
    ensures
        [0, 0, ONE_BITS] == z_normal(),
{
    broadcast use vstd::array::group_array_axioms;

    assert([0, 0, ONE_BITS] =~= z_normal());
}

proof fn lemma_up_normal()
    ensures
        [0, ONE_BITS, 0] == up_normal(),
{
    broadcast use vstd::array::group_array_axioms;

    assert([0, ONE_BITS, 0] =~= up_normal());
}

} // verus!

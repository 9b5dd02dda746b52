//! The glTF 2.0 document model: one struct per object of the glTF JSON schema.
//!
//! Optional members are `Option`s (left out of the JSON when `None`); objects refer to each
//! other by their index in the document's top-level arrays. Floating-point members hold the
//! bit patterns of the values ([`FloatBits`]). A primitive's attribute dictionary is the list
//! of its (semantic, accessor index) entries.

use std::collections::HashMap;
use vstd::prelude::*;
use crate::bytes::FloatBits;

verus! {

/// A JSON value carried through the document untouched (extensions, extras).
#[verifier::external_type_specification]
#[verifier::external_body]
pub struct ExJsonValue(serde_json::Value);

/// No semantic is named twice among the (semantic, accessor index) entries of an attribute
/// dictionary.
pub open spec fn names_distinct(es: Seq<(Seq<char>, usize)>) -> bool {
    forall|i: int, j: int| #![trigger es[i], es[j]] 0 <= i < j < es.len() ==> es[i].0 != es[j].0
}

/// The elements of an optional array, the empty sequence when the array is absent.
pub open spec fn items<T>(v: Option<Vec<T>>) -> Seq<T> {
    match v {
        Some(v) => v@,
        None => Seq::empty(),
    }
}

/// Appends `item` to the optional array `list` (creating the array when it is absent) and
/// returns the index the item now has.
pub fn push_item<T>(list: &mut Option<Vec<T>>, item: T) -> (index: usize)
    ensures
        *final(list) is Some,
        items(*final(list)) == items(*old(list)).push(item),
        index == items(*old(list)).len(),
{
    match list {
        Some(v) => {
            let index = v.len();
            v.push(item);
            index
        },
        None => {
            let mut v = Vec::new();
            v.push(item);
            *list = Some(v);
            assert(items(*list) =~= items(*old(list)).push(item));
            0
        },
    }
}

/// `after` is `before` with one item appended to the optional array, the earlier items kept.
pub open spec fn appended_one<T>(before: Option<Vec<T>>, after: Option<Vec<T>>) -> bool {
    &&& after is Some
    &&& items(after).len() == items(before).len() + 1
    &&& items(after).subrange(0, items(before).len() as int) == items(before)
}

/// The text of an optional string.
pub open spec fn opt_view(s: Option<String>) -> Option<Seq<char>> {
    match s {
        Some(t) => Some(t@),
        None => None,
    }
}

/// A complete glTF 2.0 document.
#[derive(Debug)]
pub struct Gltf {
    pub asset: Asset,
    pub scene: Option<usize>,
    pub scenes: Option<Vec<Scene>>,
    pub nodes: Option<Vec<Node>>,
    pub meshes: Option<Vec<Mesh>>,
    pub accessors: Option<Vec<Accessor>>,
    pub buffer_views: Option<Vec<BufferView>>,
    pub buffers: Option<Vec<Buffer>>,
    pub materials: Option<Vec<Material>>,
    pub textures: Option<Vec<Texture>>,
    pub images: Option<Vec<Image>>,
    pub samplers: Option<Vec<Sampler>>,
    pub animations: Option<Vec<Animation>>,
    pub extensions: Option<serde_json::Value>,
    pub extensions_used: Option<Vec<String>>,
    pub extensions_required: Option<Vec<String>>,
    pub extras: Option<HashMap<String, serde_json::Value>>,
}

impl Gltf {
    /// Every optional member is absent and the asset description is empty.
    pub open spec fn is_empty_document(self) -> bool {
        &&& self.asset.version@ == Seq::<char>::empty()
        &&& self.asset.generator is None
        &&& self.asset.copyright is None
        &&& self.scene is None
        &&& self.scenes is None
        &&& self.nodes is None
        &&& self.meshes is None
        &&& self.accessors is None
        &&& self.buffer_views is None
        &&& self.buffers is None
        &&& self.materials is None
        &&& self.textures is None
        &&& self.images is None
        &&& self.samplers is None
        &&& self.animations is None
        &&& self.extensions is None
        &&& self.extensions_used is None
        &&& self.extensions_required is None
        &&& self.extras is None
    }
}

impl Default for Gltf {
    fn default() -> (g: Gltf)
        ensures
            g.is_empty_document(),
    {
        Gltf {
            asset: Asset::default(),
            scene: None,
            scenes: None,
            nodes: None,
            meshes: None,
            accessors: None,
            buffer_views: None,
            buffers: None,
            materials: None,
            textures: None,
            images: None,
            samplers: None,
            animations: None,
            extensions: None,
            extensions_used: None,
            extensions_required: None,
            extras: None,
        }
    }
}

/// Metadata about the asset.
#[derive(Debug)]
pub struct Asset {
    pub version: String,
    pub generator: Option<String>,
    pub copyright: Option<String>,
}

impl Default for Asset {
    fn default() -> (a: Asset)
        ensures
            a.version@ == Seq::<char>::empty(),
            a.generator is None,
            a.copyright is None,
    {
        Asset { version: String::new(), generator: None, copyright: None }
    }
}

/// A scene: the root nodes to render.
#[derive(Debug)]
pub struct Scene {
    pub name: Option<String>,
    pub nodes: Option<Vec<usize>>,
}

/// A node of the scene hierarchy, with its optional mesh, transform and children.
#[derive(Debug)]
pub struct Node {
    pub name: Option<String>,
    pub mesh: Option<usize>,
    pub translation: Option<[FloatBits; 3]>,
    pub rotation: Option<[FloatBits; 4]>,
    pub scale: Option<[FloatBits; 3]>,
    pub matrix: Option<[FloatBits; 16]>,
    pub children: Option<Vec<usize>>,
}

/// A mesh: a list of primitives.
#[derive(Debug)]
pub struct Mesh {
    pub name: Option<String>,
    pub primitives: Vec<Primitive>,
}

/// A drawable part of a mesh: its vertex attributes (semantic, accessor index), index
/// accessor, material and topology mode.
#[derive(Debug)]
pub struct Primitive {
    pub attributes: Vec<(String, usize)>,
    pub indices: Option<usize>,
    pub material: Option<usize>,
    pub mode: Option<usize>,
}

/// A typed view of the data in a buffer view.
#[derive(Debug)]
pub struct Accessor {
    pub buffer_view: usize,
    pub component_type: usize,
    pub count: usize,
    pub type_: String,
    pub byte_offset: Option<usize>,
    pub min: Option<Vec<FloatBits>>,
    pub max: Option<Vec<FloatBits>>,
    pub normalized: Option<bool>,
}

/// A contiguous range of a buffer.
#[derive(Debug)]
pub struct BufferView {
    pub buffer: usize,
    pub byte_offset: usize,
    pub byte_length: usize,
    pub byte_stride: Option<usize>,
    pub target: Option<usize>,
}

/// A binary buffer (embedded in the GLB file when it has no URI).
#[derive(Debug)]
pub struct Buffer {
    pub byte_length: usize,
    pub uri: Option<String>,
}

/// A material, with its metallic-roughness parameters, textures and extensions.
#[derive(Debug)]
pub struct Material {
    pub name: Option<String>,
    pub pbr_metallic_roughness: Option<PbrMetallicRoughness>,
    pub normal_texture: Option<NormalTextureInfo>,
    pub occlusion_texture: Option<OcclusionTextureInfo>,
    pub emissive_texture: Option<TextureInfo>,
    pub emissive_factor: Option<[FloatBits; 3]>,
    pub alpha_mode: Option<String>,
    pub alpha_cutoff: Option<FloatBits>,
    pub double_sided: Option<bool>,
    pub extensions: Option<MaterialExtensions>,
}

impl Material {
    /// The material with every member absent.
    pub open spec fn spec_default() -> Material {
        Material {
            name: None,
            pbr_metallic_roughness: None,
            normal_texture: None,
            occlusion_texture: None,
            emissive_texture: None,
            emissive_factor: None,
            alpha_mode: None,
            alpha_cutoff: None,
            double_sided: None,
            extensions: None,
        }
    }
}

impl Default for Material {
    fn default() -> (m: Material)
        ensures
            m == Material::spec_default(),
    {
        Material {
            name: None,
            pbr_metallic_roughness: None,
            normal_texture: None,
            occlusion_texture: None,
            emissive_texture: None,
            emissive_factor: None,
            alpha_mode: None,
            alpha_cutoff: None,
            double_sided: None,
            extensions: None,
        }
    }
}

/// The parameters of the metallic-roughness material model.
#[derive(Debug)]
pub struct PbrMetallicRoughness {
    pub base_color_factor: Option<[FloatBits; 4]>,
    pub base_color_texture: Option<TextureInfo>,
    pub metallic_factor: Option<FloatBits>,
    pub roughness_factor: Option<FloatBits>,
    pub metallic_roughness_texture: Option<TextureInfo>,
}

impl PbrMetallicRoughness {
    /// The parameter set with every member absent.
    pub open spec fn spec_default() -> PbrMetallicRoughness {
        PbrMetallicRoughness {
            base_color_factor: None,
            base_color_texture: None,
            metallic_factor: None,
            roughness_factor: None,
            metallic_roughness_texture: None,
        }
    }
}

impl Default for PbrMetallicRoughness {
    fn default() -> (p: PbrMetallicRoughness)
        ensures
            p == PbrMetallicRoughness::spec_default(),
    {
        PbrMetallicRoughness {
            base_color_factor: None,
            base_color_texture: None,
            metallic_factor: None,
            roughness_factor: None,
            metallic_roughness_texture: None,
        }
    }
}

/// A reference to a texture and the texture-coordinate set it uses.
#[derive(Debug)]
pub struct TextureInfo {
    pub index: usize,
    pub tex_coord: Option<usize>,
}

impl Default for TextureInfo {
    fn default() -> (t: TextureInfo)
        ensures
            t == (TextureInfo { index: 0, tex_coord: None }),
    {
        TextureInfo { index: 0, tex_coord: None }
    }
}

/// A reference to a normal map, with its scale.
#[derive(Debug)]
pub struct NormalTextureInfo {
    pub index: usize,
    pub tex_coord: Option<usize>,
    pub scale: Option<FloatBits>,
}

impl Default for NormalTextureInfo {
    fn default() -> (t: NormalTextureInfo)
        ensures
            t == (NormalTextureInfo { index: 0, tex_coord: None, scale: None }),
    {
        NormalTextureInfo { index: 0, tex_coord: None, scale: None }
    }
}

/// A reference to an occlusion map, with its strength.
#[derive(Debug)]
pub struct OcclusionTextureInfo {
    pub index: usize,
    pub tex_coord: Option<usize>,
    pub strength: Option<FloatBits>,
}

impl Default for OcclusionTextureInfo {
    fn default() -> (t: OcclusionTextureInfo)
        ensures
            t == (OcclusionTextureInfo { index: 0, tex_coord: None, strength: None }),
    {
        OcclusionTextureInfo { index: 0, tex_coord: None, strength: None }
    }
}

/// A texture: an image and the sampler to read it with.
#[derive(Debug)]
pub struct Texture {
    pub name: Option<String>,
    pub source: usize,
    pub sampler: Option<usize>,
}

/// An image, stored in a buffer view or referenced by URI.
#[derive(Debug)]
pub struct Image {
    pub name: Option<String>,
    pub uri: Option<String>,
    pub mime_type: Option<String>,
    pub buffer_view: Option<usize>,
}

/// Filtering and wrapping modes of a texture sampler.
#[derive(Debug)]
pub struct Sampler {
    pub mag_filter: Option<usize>,
    pub min_filter: Option<usize>,
    pub wrap_s: Option<usize>,
    pub wrap_t: Option<usize>,
}

/// An animation: its channels and the samplers they read key frames from.
#[derive(Debug)]
pub struct Animation {
    pub name: Option<String>,
    pub channels: Option<Vec<AnimationChannel>>,
    pub samplers: Option<Vec<AnimationSampler>>,
}

/// Binds a sampler of the animation to the animated property of a node.
#[derive(Debug)]
pub struct AnimationChannel {
    pub sampler: usize,
    pub target: AnimationChannelTarget,
}

/// The node and the property (path) an animation channel drives.
#[derive(Debug)]
pub struct AnimationChannelTarget {
    pub node: usize,
    pub path: String,
}

/// Key-frame input (times) and output (values) accessors and their interpolation.
#[derive(Debug)]
pub struct AnimationSampler {
    pub input: usize,
    pub interpolation: Option<String>,
    pub output: usize,
}

/// The material extensions the library writes.
#[derive(Debug)]
pub struct MaterialExtensions {
    pub pbr_specular_glossiness: Option<PbrSpecularGlossiness>,
}

/// The parameters of the specular-glossiness material model.
#[derive(Debug)]
pub struct PbrSpecularGlossiness {
    pub diffuse_factor: Option<[FloatBits; 4]>,
    pub diffuse_texture: Option<TextureInfo>,
    pub specular_factor: Option<[FloatBits; 3]>,
    pub glossiness_factor: Option<FloatBits>,
    pub specular_glossiness_texture: Option<TextureInfo>,
}

impl PbrSpecularGlossiness {
    /// The parameter set with every member absent.
    pub open spec fn spec_default() -> PbrSpecularGlossiness {
        PbrSpecularGlossiness {
            diffuse_factor: None,
            diffuse_texture: None,
            specular_factor: None,
            glossiness_factor: None,
            specular_glossiness_texture: None,
        }
    }
}

impl Default for PbrSpecularGlossiness {
    fn default() -> (p: PbrSpecularGlossiness)
        ensures
            p == PbrSpecularGlossiness::spec_default(),
    {
        PbrSpecularGlossiness {
            diffuse_factor: None,
            diffuse_texture: None,
            specular_factor: None,
            glossiness_factor: None,
            specular_glossiness_texture: None,
        }
    }
}

} // verus!

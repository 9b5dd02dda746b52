//! Adding materials to the document: metallic-roughness materials, textured materials and
//! materials of the specular-glossiness extension.

use vstd::prelude::*;
use crate::builder::GltfBuilder;
use crate::bytes::FloatBits;
use crate::models::{
    items, push_item, Gltf, Material, MaterialExtensions, NormalTextureInfo, OcclusionTextureInfo,
    PbrMetallicRoughness, PbrSpecularGlossiness, TextureInfo,
};
use crate::material::{
    MaterialBuilder, named_material, with_pbr, basic_material, metallic_material, textured_material,
    create_textured_material,
};

verus! {

/// The bit pattern of the float 1.0.
pub const FLOAT_ONE: FloatBits = 0x3F80_0000;

/// The name of the specular-glossiness material extension.
pub open spec fn specular_glossiness_extension() -> Seq<char> {
    "KHR_materials_pbrSpecularGlossiness"@
}

/// The material [`GltfBuilder::add_material`] adds: metallic-roughness parameters exist exactly
/// when a base color, metallic factor or roughness factor is given.
pub open spec fn pbr_material(
    name: Option<String>,
    base_color: Option<[FloatBits; 4]>,
    metallic_factor: Option<FloatBits>,
    roughness_factor: Option<FloatBits>,
    double_sided: Option<bool>,
) -> Material {
    Material {
        pbr_metallic_roughness: if base_color is Some || metallic_factor is Some
            || roughness_factor is Some {
            Some(
                PbrMetallicRoughness {
                    base_color_factor: base_color,
                    metallic_factor,
                    roughness_factor,
                    ..PbrMetallicRoughness::spec_default()
                },
            )
        } else {
            None
        },
        double_sided,
        ..named_material(name)
    }
}

/// A reference to texture `t` using texture-coordinate set 0, if there is one.
pub open spec fn texture_ref0(t: Option<usize>) -> Option<TextureInfo> {
    match t {
        Some(i) => Some(TextureInfo { index: i, tex_coord: Some(0) }),
        None => None,
    }
}

/// The material [`GltfBuilder::add_specular_glossiness_material`] adds: every texture uses
/// texture-coordinate set 0, normal and occlusion maps have scale and strength 1.0, and the
/// specular-glossiness parameters are stored as the material's extension.
pub open spec fn specular_glossiness_material(
    name: Option<String>,
    diffuse_factor: Option<[FloatBits; 4]>,
    diffuse_texture: Option<usize>,
    specular_factor: Option<[FloatBits; 3]>,
    glossiness_factor: Option<FloatBits>,
    specular_glossiness_texture: Option<usize>,
    normal_texture: Option<usize>,
    occlusion_texture: Option<usize>,
    emissive_texture: Option<usize>,
    emissive_factor: Option<[FloatBits; 3]>,
    alpha_mode: Option<String>,
    alpha_cutoff: Option<FloatBits>,
    double_sided: Option<bool>,
) -> Material {
    Material {
        name,
        pbr_metallic_roughness: None,
        normal_texture: match normal_texture {
            Some(i) => Some(NormalTextureInfo { index: i, tex_coord: Some(0), scale: Some(FLOAT_ONE) }),
            None => None,
        },
        occlusion_texture: match occlusion_texture {
            Some(i) => Some(
                OcclusionTextureInfo { index: i, tex_coord: Some(0), strength: Some(FLOAT_ONE) },
            ),
            None => None,
        },
        emissive_texture: texture_ref0(emissive_texture),
        emissive_factor,
        alpha_mode,
        alpha_cutoff,
        double_sided,
        extensions: Some(
            MaterialExtensions {
                pbr_specular_glossiness: Some(
                    PbrSpecularGlossiness {
                        diffuse_factor,
                        diffuse_texture: texture_ref0(diffuse_texture),
                        specular_factor,
                        glossiness_factor,
                        specular_glossiness_texture: texture_ref0(specular_glossiness_texture),
                    },
                ),
            },
        ),
    }
}

/// Whether one of the strings of `v` is `name`.
pub open spec fn lists_name(v: Seq<String>, name: Seq<char>) -> bool {
    exists|j: int| 0 <= j < v.len() && #[trigger] v[j]@ == name
}

/// `after` lists the names of `before` and, when `before` does not list it, `name` at the end.
pub open spec fn registered(before: Option<Vec<String>>, after: Option<Vec<String>>, name: Seq<char>) -> bool {
    &&& after is Some
    &&& if lists_name(items(before), name) {
        after == before
    } else {
        &&& items(after).len() == items(before).len() + 1
        &&& items(after).subrange(0, items(before).len() as int) == items(before)
        &&& items(after).last()@ == name
    }
}

/// Whether one of the strings of `v` equals `s`.
fn contains_string(v: &Vec<String>, s: &String) -> (r: bool)
    ensures
        r == lists_name(v@, s@),
{
    let mut i: usize = 0;
    while i < v.len()
        invariant
            i <= v@.len(),
            forall|j: int| 0 <= j < i ==> v@[j]@ != s@,
        decreases v@.len() - i,
    {
        if v[i] == *s {
            assert(v@[i as int]@ == s@);
            return true;
        }
        i = i + 1;
    }
    false
}

impl GltfBuilder {
    /// Appends `material` to the document's materials and returns its index.
    fn add_material_direct(&mut self, material: Material) -> (index: usize)
        ensures
            index == items(old(self).gltf.materials).len(),
            final(self).gltf.materials is Some,
            items(final(self).gltf.materials) == items(old(self).gltf.materials).push(material),
            final(self).gltf == (Gltf { materials: final(self).gltf.materials, ..old(self).gltf }),
            final(self).buffer_data == old(self).buffer_data,
    {
        push_item(&mut self.gltf.materials, material)
    }

    /// Appends a metallic-roughness material (see [`pbr_material`]) and returns its index.
    pub fn add_material(
        &mut self,
        name: Option<String>,
        base_color: Option<[FloatBits; 4]>,
        metallic_factor: Option<FloatBits>,
        roughness_factor: Option<FloatBits>,
        double_sided: Option<bool>,
    ) -> (index: usize)
        ensures
            index == items(old(self).gltf.materials).len(),
            final(self).gltf.materials is Some,
            items(final(self).gltf.materials) == items(old(self).gltf.materials).push(
                pbr_material(name, base_color, metallic_factor, roughness_factor, double_sided),
            ),
            final(self).gltf == (Gltf { materials: final(self).gltf.materials, ..old(self).gltf }),
            final(self).buffer_data == old(self).buffer_data,
    {
        let ghost expected = pbr_material(name, base_color, metallic_factor, roughness_factor, double_sided);
        let mut builder = MaterialBuilder::new(name);
        if let Some(color) = base_color {
            builder = builder.with_base_color(color);
        }
        if let Some(metallic) = metallic_factor {
            builder = builder.with_metallic_factor(metallic);
        }
        if let Some(roughness) = roughness_factor {
            builder = builder.with_roughness_factor(roughness);
        }
        if let Some(double_sided) = double_sided {
            builder = builder.with_double_sided(double_sided);
        }
        let material = builder.build();
        assert(material == expected);
        self.add_material_direct(material)
    }

    /// Appends a material with the given base color and returns its index.
    pub fn create_basic_material(&mut self, name: Option<String>, color: [FloatBits; 4]) -> (index: usize)
        ensures
            index == items(old(self).gltf.materials).len(),
            final(self).gltf.materials is Some,
            items(final(self).gltf.materials) == items(old(self).gltf.materials).push(
                basic_material(name, color),
            ),
            final(self).gltf == (Gltf { materials: final(self).gltf.materials, ..old(self).gltf }),
            final(self).buffer_data == old(self).buffer_data,
    {
        let material = crate::material::create_basic_material(name, color);
        self.add_material_direct(material)
    }

    /// Appends a material with base color, metallic factor and roughness factor and returns its
    /// index.
    pub fn create_metallic_material(
        &mut self,
        name: Option<String>,
        color: [FloatBits; 4],
        metallic: FloatBits,
        roughness: FloatBits,
    ) -> (index: usize)
        ensures
            index == items(old(self).gltf.materials).len(),
            final(self).gltf.materials is Some,
            items(final(self).gltf.materials) == items(old(self).gltf.materials).push(
                metallic_material(name, color, metallic, roughness),
            ),
            final(self).gltf == (Gltf { materials: final(self).gltf.materials, ..old(self).gltf }),
            final(self).buffer_data == old(self).buffer_data,
    {
        let material = crate::material::create_metallic_material(name, color, metallic, roughness);
        self.add_material_direct(material)
    }

    /// Appends a textured material (see [`textured_material`]) and returns its index.
    pub fn add_textured_material(
        &mut self,
        name: Option<String>,
        base_color_texture: Option<usize>,
        metallic_roughness_texture: Option<usize>,
        normal_texture: Option<usize>,
        occlusion_texture: Option<usize>,
        emissive_texture: Option<usize>,
        emissive_factor: Option<[FloatBits; 3]>,
        metallic_factor: Option<FloatBits>,
        roughness_factor: Option<FloatBits>,
        alpha_mode: Option<String>,
        alpha_cutoff: Option<FloatBits>,
        double_sided: Option<bool>,
    ) -> (index: usize)
        ensures
            index == items(old(self).gltf.materials).len(),
            final(self).gltf.materials is Some,
            items(final(self).gltf.materials) == items(old(self).gltf.materials).push(
                textured_material(
                    name,
                    base_color_texture,
                    metallic_roughness_texture,
                    normal_texture,
                    occlusion_texture,
                    emissive_texture,
                    emissive_factor,
                    metallic_factor,
                    roughness_factor,
                    alpha_mode,
                    alpha_cutoff,
                    double_sided,
                ),
            ),
            final(self).gltf == (Gltf { materials: final(self).gltf.materials, ..old(self).gltf }),
            final(self).buffer_data == old(self).buffer_data,
    {
        let material = create_textured_material(
            name,
            base_color_texture,
            metallic_roughness_texture,
            normal_texture,
            occlusion_texture,
            emissive_texture,
            emissive_factor,
            metallic_factor,
            roughness_factor,
            alpha_mode,
            alpha_cutoff,
            double_sided,
        );
        self.add_material_direct(material)
    }

    /// Appends a material whose base color comes from texture `base_color_texture`, with
    /// metallic and roughness factors 1.0, and returns its index.
    pub fn create_textured_material(&mut self, name: Option<String>, base_color_texture: usize) -> (index: usize)
        ensures
            index == items(old(self).gltf.materials).len(),
            final(self).gltf.materials is Some,
            items(final(self).gltf.materials) == items(old(self).gltf.materials).push(
                textured_material(
                    name,
                    Some(base_color_texture),
                    None,
                    None,
                    None,
                    None,
                    None,
                    Some(FLOAT_ONE),
                    Some(FLOAT_ONE),
                    None,
                    None,
                    None,
                ),
            ),
            final(self).gltf == (Gltf { materials: final(self).gltf.materials, ..old(self).gltf }),
            final(self).buffer_data == old(self).buffer_data,
    {
        self.add_textured_material(
            name,
            Some(base_color_texture),
            None,
            None,
            None,
            None,
            None,
            Some(FLOAT_ONE),
            Some(FLOAT_ONE),
            None,
            None,
            None,
        )
    }

    /// Registers the specular-glossiness extension in the document's list of used extensions
    /// (once), appends a material of that model (see [`specular_glossiness_material`]) and
    /// returns its index.
    pub fn add_specular_glossiness_material(
        &mut self,
        name: Option<String>,
        diffuse_factor: Option<[FloatBits; 4]>,
        diffuse_texture: Option<usize>,
        specular_factor: Option<[FloatBits; 3]>,
        glossiness_factor: Option<FloatBits>,
        specular_glossiness_texture: Option<usize>,
        normal_texture: Option<usize>,
        occlusion_texture: Option<usize>,
        emissive_texture: Option<usize>,
        emissive_factor: Option<[FloatBits; 3]>,
        alpha_mode: Option<String>,
        alpha_cutoff: Option<FloatBits>,
        double_sided: Option<bool>,
    ) -> (index: usize)
        ensures
            index == items(old(self).gltf.materials).len(),
            final(self).gltf.materials is Some,
            items(final(self).gltf.materials) == items(old(self).gltf.materials).push(
                specular_glossiness_material(
                    name,
                    diffuse_factor,
                    diffuse_texture,
                    specular_factor,
                    glossiness_factor,
                    specular_glossiness_texture,
                    normal_texture,
                    occlusion_texture,
                    emissive_texture,
                    emissive_factor,
                    alpha_mode,
                    alpha_cutoff,
                    double_sided,
                ),
            ),
            registered(
                old(self).gltf.extensions_used,
                final(self).gltf.extensions_used,
                specular_glossiness_extension(),
            ),
            final(self).gltf == (Gltf {
                materials: final(self).gltf.materials,
                extensions_used: final(self).gltf.extensions_used,
                ..old(self).gltf
            }),
            final(self).buffer_data == old(self).buffer_data,
    {
        let extension = "KHR_materials_pbrSpecularGlossiness".to_string();
        match &mut self.gltf.extensions_used {
            Some(ext_used) => {
                if !contains_string(ext_used, &extension) {
                    ext_used.push(extension);
                    assert(ext_used@.subrange(0, ext_used@.len() - 1) =~= old(
                        self,
                    ).gltf.extensions_used.unwrap()@);
                }
            },
            None => {
                self.gltf.extensions_used = Some(vec![extension]);
                assert(items(self.gltf.extensions_used).subrange(0, 0) =~= Seq::<String>::empty());
            },
        }
        let ghost expected = specular_glossiness_material(
            name,
            diffuse_factor,
            diffuse_texture,
            specular_factor,
            glossiness_factor,
            specular_glossiness_texture,
            normal_texture,
            occlusion_texture,
            emissive_texture,
            emissive_factor,
            alpha_mode,
            alpha_cutoff,
            double_sided,
        );
        let mut material = Material::default();
        material.name = name;
        if alpha_mode.is_some() {
            material.alpha_mode = alpha_mode;
        }
        if alpha_cutoff.is_some() {
            material.alpha_cutoff = alpha_cutoff;
        }
        if double_sided.is_some() {
            material.double_sided = double_sided;
        }
        if emissive_factor.is_some() {
            material.emissive_factor = emissive_factor;
        }
        if let Some(normal_texture_index) = normal_texture {
            material.normal_texture = Some(
                NormalTextureInfo {
                    index: normal_texture_index,
                    tex_coord: Some(0),
                    scale: Some(FLOAT_ONE),
                },
            );
        }
        if let Some(occlusion_texture_index) = occlusion_texture {
            material.occlusion_texture = Some(
                OcclusionTextureInfo {
                    index: occlusion_texture_index,
                    tex_coord: Some(0),
                    strength: Some(FLOAT_ONE),
                },
            );
        }
        if let Some(emissive_texture_index) = emissive_texture {
            material.emissive_texture = Some(
                TextureInfo { index: emissive_texture_index, tex_coord: Some(0) },
            );
        }
        let mut pbr_specular_glossiness = PbrSpecularGlossiness::default();
        pbr_specular_glossiness.diffuse_factor = diffuse_factor;
        pbr_specular_glossiness.specular_factor = specular_factor;
        pbr_specular_glossiness.glossiness_factor = glossiness_factor;
        if let Some(diffuse_texture_index) = diffuse_texture {
            pbr_specular_glossiness.diffuse_texture = Some(
                TextureInfo { index: diffuse_texture_index, tex_coord: Some(0) },
            );
        }
        if let Some(specular_glossiness_texture_index) = specular_glossiness_texture {
            pbr_specular_glossiness.specular_glossiness_texture = Some(
                TextureInfo { index: specular_glossiness_texture_index, tex_coord: Some(0) },
            );
        }
        let material_extensions = MaterialExtensions {
            pbr_specular_glossiness: Some(pbr_specular_glossiness),
        };
        material.extensions = Some(material_extensions);
        assert(material == expected);
        self.add_material_direct(material)
    }

    /// Appends an opaque, single-sided specular-glossiness material with the given diffuse
    /// color, specular color and glossiness, and returns its index.
    pub fn create_specular_material(
        &mut self,
        name: Option<String>,
        diffuse_color: [FloatBits; 4],
        specular_color: [FloatBits; 3],
        glossiness: FloatBits,
    ) -> (index: usize)
        ensures
            index == items(old(self).gltf.materials).len(),
            final(self).gltf.materials is Some,
            items(final(self).gltf.materials).len() == items(old(self).gltf.materials).len() + 1,
            items(final(self).gltf.materials).subrange(0, index as int) == items(
                old(self).gltf.materials,
            ),
            ({
                let m = items(final(self).gltf.materials)[index as int];
                &&& m.alpha_mode matches Some(mode) && mode@ == "OPAQUE"@
                &&& m == specular_glossiness_material(
                    name,
                    Some(diffuse_color),
                    None,
                    Some(specular_color),
                    Some(glossiness),
                    None,
                    None,
                    None,
                    None,
                    None,
                    m.alpha_mode,
                    None,
                    Some(false),
                )
            }),
            registered(
                old(self).gltf.extensions_used,
                final(self).gltf.extensions_used,
                specular_glossiness_extension(),
            ),
            final(self).gltf == (Gltf {
                materials: final(self).gltf.materials,
                extensions_used: final(self).gltf.extensions_used,
                ..old(self).gltf
            }),
            final(self).buffer_data == old(self).buffer_data,
    {
        let index = self.add_specular_glossiness_material(
            name,
            Some(diffuse_color),
            None,
            Some(specular_color),
            Some(glossiness),
            None,
            None,
            None,
            None,
            None,
            Some("OPAQUE".to_string()),
            None,
            Some(false),
        );
        assert(items(self.gltf.materials).subrange(0, index as int) =~= items(old(self).gltf.materials));
        index
    }
}

} // verus!

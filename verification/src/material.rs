//! Materials of the metallic-roughness model and a builder that sets their members one by one.

use vstd::prelude::*;
use crate::bytes::FloatBits;
use crate::models::{Material, NormalTextureInfo, OcclusionTextureInfo, PbrMetallicRoughness, TextureInfo};

verus! {

/// The metallic-roughness parameters of `m`, or the empty parameter set when it has none.
pub open spec fn pbr_of(m: Material) -> PbrMetallicRoughness {
    match m.pbr_metallic_roughness {
        Some(p) => p,
        None => PbrMetallicRoughness::spec_default(),
    }
}

/// `m` with its metallic-roughness parameters replaced by `p`.
pub open spec fn with_pbr(m: Material, p: PbrMetallicRoughness) -> Material {
    Material { pbr_metallic_roughness: Some(p), ..m }
}

/// The texture reference to texture `index` using texture-coordinate set `tex_coord`.
pub open spec fn texture_ref(index: usize, tex_coord: Option<usize>) -> TextureInfo {
    TextureInfo { index, tex_coord }
}

/// The material named `name` with every other member absent.
pub open spec fn named_material(name: Option<String>) -> Material {
    Material { name, ..Material::spec_default() }
}

/// Sets the members of a material one at a time.
pub struct MaterialBuilder {
    /// The material built so far.
    pub material: Material,
}

impl MaterialBuilder {
    /// Starts a material named `name` with every other member absent.
    pub fn new(name: Option<String>) -> (b: Self)
        ensures
            b.material == named_material(name),
    {
        let mut material = Material::default();
        material.name = name;
        Self { material }
    }

    /// Sets the base color factor (creating the metallic-roughness parameters if needed).
    pub fn with_base_color(self, color: [FloatBits; 4]) -> (b: Self)
        ensures
            b.material == with_pbr(self.material, PbrMetallicRoughness {
                base_color_factor: Some(color),
                ..pbr_of(self.material)
            }),
    {
        let mut this = self;
        if this.material.pbr_metallic_roughness.is_none() {
            this.material.pbr_metallic_roughness = Some(PbrMetallicRoughness::default());
        }
        match &mut this.material.pbr_metallic_roughness {
            Some(pbr) => {
                pbr.base_color_factor = Some(color);
            },
            None => {},
        }
        this
    }

    /// Sets the metallic factor (creating the metallic-roughness parameters if needed).
    pub fn with_metallic_factor(self, factor: FloatBits) -> (b: Self)
        ensures
            b.material == with_pbr(self.material, PbrMetallicRoughness {
                metallic_factor: Some(factor),
                ..pbr_of(self.material)
            }),
    {
        let mut this = self;
        if this.material.pbr_metallic_roughness.is_none() {
            this.material.pbr_metallic_roughness = Some(PbrMetallicRoughness::default());
        }
        match &mut this.material.pbr_metallic_roughness {
            Some(pbr) => {
                pbr.metallic_factor = Some(factor);
            },
            None => {},
        }
        this
    }

    /// Sets the roughness factor (creating the metallic-roughness parameters if needed).
    pub fn with_roughness_factor(self, factor: FloatBits) -> (b: Self)
        ensures
            b.material == with_pbr(self.material, PbrMetallicRoughness {
                roughness_factor: Some(factor),
                ..pbr_of(self.material)
            }),
    {
        let mut this = self;
        if this.material.pbr_metallic_roughness.is_none() {
            this.material.pbr_metallic_roughness = Some(PbrMetallicRoughness::default());
        }
        match &mut this.material.pbr_metallic_roughness {
            Some(pbr) => {
                pbr.roughness_factor = Some(factor);
            },
            None => {},
        }
        this
    }

    /// Sets the base color texture (creating the metallic-roughness parameters if needed).
    pub fn with_base_color_texture(self, texture_index: usize, tex_coord: Option<usize>) -> (b: Self)
        ensures
            b.material == with_pbr(self.material, PbrMetallicRoughness {
                base_color_texture: Some(texture_ref(texture_index, tex_coord)),
                ..pbr_of(self.material)
            }),
    {
        let mut this = self;
        if this.material.pbr_metallic_roughness.is_none() {
            this.material.pbr_metallic_roughness = Some(PbrMetallicRoughness::default());
        }
        match &mut this.material.pbr_metallic_roughness {
            Some(pbr) => {
                let mut texture_info = TextureInfo::default();
                texture_info.index = texture_index;
                texture_info.tex_coord = tex_coord;
                pbr.base_color_texture = Some(texture_info);
            },
            None => {},
        }
        this
    }

    /// Sets the metallic-roughness texture (creating the metallic-roughness parameters if
    /// needed).
    pub fn with_metallic_roughness_texture(self, texture_index: usize, tex_coord: Option<usize>) -> (b: Self)
        ensures
            b.material == with_pbr(self.material, PbrMetallicRoughness {
                metallic_roughness_texture: Some(texture_ref(texture_index, tex_coord)),
                ..pbr_of(self.material)
            }),
    {
        let mut this = self;
        if this.material.pbr_metallic_roughness.is_none() {
            this.material.pbr_metallic_roughness = Some(PbrMetallicRoughness::default());
        }
        match &mut this.material.pbr_metallic_roughness {
            Some(pbr) => {
                let mut texture_info = TextureInfo::default();
                texture_info.index = texture_index;
                texture_info.tex_coord = tex_coord;
                pbr.metallic_roughness_texture = Some(texture_info);
            },
            None => {},
        }
        this
    }

    /// Sets the normal map.
    pub fn with_normal_texture(self, texture_index: usize, tex_coord: Option<usize>, scale: Option<FloatBits>) -> (b: Self)
        ensures
            b.material == (Material {
                normal_texture: Some(NormalTextureInfo { index: texture_index, tex_coord, scale }),
                ..self.material
            }),
    {
        let mut this = self;
        let mut normal_info = NormalTextureInfo::default();
        normal_info.index = texture_index;
        normal_info.tex_coord = tex_coord;
        normal_info.scale = scale;
        this.material.normal_texture = Some(normal_info);
        this
    }

    /// Sets the occlusion map.
    pub fn with_occlusion_texture(self, texture_index: usize, tex_coord: Option<usize>, strength: Option<FloatBits>) -> (b: Self)
        ensures
            b.material == (Material {
                occlusion_texture: Some(
                    OcclusionTextureInfo { index: texture_index, tex_coord, strength },
                ),
                ..self.material
            }),
    {
        let mut this = self;
        let mut occlusion_info = OcclusionTextureInfo::default();
        occlusion_info.index = texture_index;
        occlusion_info.tex_coord = tex_coord;
        occlusion_info.strength = strength;
        this.material.occlusion_texture = Some(occlusion_info);
        this
    }

    /// Sets the emissive texture.
    pub fn with_emissive_texture(self, texture_index: usize, tex_coord: Option<usize>) -> (b: Self)
        ensures
            b.material == (Material {
                emissive_texture: Some(texture_ref(texture_index, tex_coord)),
                ..self.material
            }),
    {
        let mut this = self;
        let mut texture_info = TextureInfo::default();
        texture_info.index = texture_index;
        texture_info.tex_coord = tex_coord;
        this.material.emissive_texture = Some(texture_info);
        this
    }

    /// Sets the emissive factor.
    pub fn with_emissive_factor(self, factor: [FloatBits; 3]) -> (b: Self)
        ensures
            b.material == (Material { emissive_factor: Some(factor), ..self.material }),
    {
        let mut this = self;
        this.material.emissive_factor = Some(factor);
        this
    }

    /// Sets the alpha mode and replaces the alpha cutoff by `cutoff`.
    pub fn with_alpha_mode(self, mode: String, cutoff: Option<FloatBits>) -> (b: Self)
        ensures
            b.material == (Material {
                alpha_mode: Some(mode),
                alpha_cutoff: cutoff,
                ..self.material
            }),
    {
        let mut this = self;
        this.material.alpha_mode = Some(mode);
        this.material.alpha_cutoff = cutoff;
        this
    }

    /// Sets whether the material is double sided.
    pub fn with_double_sided(self, double_sided: bool) -> (b: Self)
        ensures
            b.material == (Material { double_sided: Some(double_sided), ..self.material }),
    {
        let mut this = self;
        this.material.double_sided = Some(double_sided);
        this
    }

    /// The material built.
    pub fn build(self) -> (m: Material)
        ensures
            m == self.material,
    {
        self.material
    }
}

/// The material named `name` whose only other member is the base color `color`.
pub open spec fn basic_material(name: Option<String>, color: [FloatBits; 4]) -> Material {
    with_pbr(named_material(name), PbrMetallicRoughness {
        base_color_factor: Some(color),
        ..PbrMetallicRoughness::spec_default()
    })
}

/// The material named `name` with base color, metallic factor and roughness factor.
pub open spec fn metallic_material(name: Option<String>, color: [FloatBits; 4], metallic: FloatBits, roughness: FloatBits) -> Material {
    with_pbr(named_material(name), PbrMetallicRoughness {
        base_color_factor: Some(color),
        metallic_factor: Some(metallic),
        roughness_factor: Some(roughness),
        ..PbrMetallicRoughness::spec_default()
    })
}

/// A reference to texture `t` (texture-coordinate set unspecified), if there is one.
pub open spec fn texture_ref_opt(t: Option<usize>) -> Option<TextureInfo> {
    match t {
        Some(i) => Some(texture_ref(i, None)),
        None => None,
    }
}

/// The material [`create_textured_material`] builds: each given texture is referenced with no
/// texture-coordinate set (normal maps without scale, occlusion maps without strength), the
/// metallic-roughness parameters exist exactly when a base color texture, metallic-roughness
/// texture, metallic factor or roughness factor is given, and the alpha cutoff is kept only
/// together with an alpha mode.
pub open spec fn textured_material(
    name: Option<String>,
    base_color_texture: Option<usize>,
    metallic_roughness_texture: Option<usize>,
    normal_texture: Option<usize>,
    occlusion_texture: Option<usize>,
    emissive_texture: Option<usize>,
    emissive_factor: Option<[FloatBits; 3]>,
    metallic_factor: Option<FloatBits>,
    roughness_factor: Option<FloatBits>,
    alpha_mode: Option<String>,
    alpha_cutoff: Option<FloatBits>,
    double_sided: Option<bool>,
) -> Material {
    Material {
        name,
        pbr_metallic_roughness: if base_color_texture is Some || metallic_roughness_texture is Some
            || metallic_factor is Some || roughness_factor is Some {
            Some(
                PbrMetallicRoughness {
                    base_color_factor: None,
                    base_color_texture: texture_ref_opt(base_color_texture),
                    metallic_factor,
                    roughness_factor,
                    metallic_roughness_texture: texture_ref_opt(metallic_roughness_texture),
                },
            )
        } else {
            None
        },
        normal_texture: match normal_texture {
            Some(i) => Some(NormalTextureInfo { index: i, tex_coord: None, scale: None }),
            None => None,
        },
        occlusion_texture: match occlusion_texture {
            Some(i) => Some(OcclusionTextureInfo { index: i, tex_coord: None, strength: None }),
            None => None,
        },
        emissive_texture: texture_ref_opt(emissive_texture),
        emissive_factor,
        alpha_mode,
        alpha_cutoff: if alpha_mode is Some {
            alpha_cutoff
        } else {
            None
        },
        double_sided,
        extensions: None,
    }
}

/// A material with the given base color.
pub fn create_basic_material(name: Option<String>, color: [FloatBits; 4]) -> (m: Material)
    ensures
        m == basic_material(name, color),
{
    MaterialBuilder::new(name).with_base_color(color).build()
}

/// A material with the given base color, metallic factor and roughness factor.
pub fn create_metallic_material(name: Option<String>, color: [FloatBits; 4], metallic: FloatBits, roughness: FloatBits) -> (m: Material)
    ensures
        m == metallic_material(name, color, metallic, roughness),
{
    MaterialBuilder::new(name).with_base_color(color).with_metallic_factor(
        metallic,
    ).with_roughness_factor(roughness).build()
}

/// A material with the given textures and factors (see [`textured_material`]).
pub fn create_textured_material(
    name: Option<String>,
    base_color_texture: Option<usize>,
    metallic_roughness_texture: Option<usize>,
    normal_texture: Option<usize>,
    occlusion_texture: Option<usize>,
    emissive_texture: Option<usize>,
    emissive_factor: Option<[FloatBits; 3]>,
    metallic_factor: Option<FloatBits>,
    roughness_factor: Option<FloatBits>,
    alpha_mode: Option<String>,
    alpha_cutoff: Option<FloatBits>,
    double_sided: Option<bool>,
) -> (m: Material)
    ensures
        m == textured_material(
            name,
            base_color_texture,
            metallic_roughness_texture,
            normal_texture,
            occlusion_texture,
            emissive_texture,
            emissive_factor,
            metallic_factor,
            roughness_factor,
            alpha_mode,
            alpha_cutoff,
            double_sided,
        ),
{
    let ghost spec_mode = alpha_mode;
    let ghost expected = textured_material(
        name,
        base_color_texture,
        metallic_roughness_texture,
        normal_texture,
        occlusion_texture,
        emissive_texture,
        emissive_factor,
        metallic_factor,
        roughness_factor,
        alpha_mode,
        alpha_cutoff,
        double_sided,
    );
    let mut builder = MaterialBuilder::new(name);
    if let Some(texture) = base_color_texture {
        builder = builder.with_base_color_texture(texture, None);
    }
    if let Some(texture) = metallic_roughness_texture {
        builder = builder.with_metallic_roughness_texture(texture, None);
    }
    if let Some(texture) = normal_texture {
        builder = builder.with_normal_texture(texture, None, None);
    }
    if let Some(texture) = occlusion_texture {
        builder = builder.with_occlusion_texture(texture, None, None);
    }
    if let Some(texture) = emissive_texture {
        builder = builder.with_emissive_texture(texture, None);
    }
    if let Some(factor) = emissive_factor {
        builder = builder.with_emissive_factor(factor);
    }
    if let Some(factor) = metallic_factor {
        builder = builder.with_metallic_factor(factor);
    }
    if let Some(factor) = roughness_factor {
        builder = builder.with_roughness_factor(factor);
    }
    if let Some(mode) = alpha_mode {
        builder = builder.with_alpha_mode(mode, alpha_cutoff);
    }
    if let Some(ds) = double_sided {
        builder = builder.with_double_sided(ds);
    }
    let m = builder.build();
    assert(m == expected);
    m
}

} // verus!

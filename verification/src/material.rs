//! Materials and textures of a layer.

use vstd::prelude::*;
use crate::bits::{F32_ONE, F32_QUARTER};

verus! {

/// Factor of a texture, and of the metallic and roughness terms, where
/// none is given: 1.0.
pub fn default_texture_value() -> (v: u32)
    ensures
        v == F32_ONE,
{
    F32_ONE
}

/// Alpha cutoff where none is given: 0.25.
pub fn default_alpha_cutoff() -> (v: u32)
    ensures
        v == F32_QUARTER,
{
    F32_QUARTER
}

/// Base colour where none is given: opaque white.
pub fn default_base_color_factor() -> (c: [u32; 4])
    ensures
        forall|i: int| 0 <= i < 4 ==> c@[i] == F32_ONE,
{
    [F32_ONE, F32_ONE, F32_ONE, F32_ONE]
}

/// Face culling where none is named.
pub fn default_cull_face() -> (s: String)
    ensures
        s@ == "none"@,
{
    "none".to_owned()
}

/// Reference to a texture set, with the factor it is applied by.
#[derive(Debug, Clone)]
pub struct MaterialTexture {
    pub texture_set_definition_id: i32,
    /// Bit pattern of a single-precision number.
    pub factor: u32,
    /// No longer in use.
    pub tex_coord: i32,
}

impl MaterialTexture {
    /// Every field has the value that a record starts from.
    pub open spec fn is_default(&self) -> bool {
        &&& self.texture_set_definition_id == -1
        &&& self.factor == F32_ONE
        &&& self.tex_coord == 0
    }
}

impl Default for MaterialTexture {
    fn default() -> (r: Self)
        ensures
            r.is_default(),
    {
        Self {
            texture_set_definition_id: -1,
            factor: default_texture_value(),
            tex_coord: 0,
        }
    }
}

#[derive(Debug, Clone)]
pub struct PbrMetallicRoughness {
    pub base_color_factor: [u32; 4],
    pub metallic_factor: u32,
    pub roughness_factor: u32,
    pub metallic_roughness_texture: Option<MaterialTexture>,
    pub base_color_texture: Option<MaterialTexture>,
}

impl PbrMetallicRoughness {
    /// Every field has the value that a record starts from.
    pub open spec fn is_default(&self) -> bool {
        &&& forall|i: int| 0 <= i < 4 ==> self.base_color_factor@[i] == F32_ONE
        &&& self.metallic_factor == F32_ONE
        &&& self.roughness_factor == F32_ONE
        &&& self.metallic_roughness_texture is None
        &&& self.base_color_texture is None
    }
}

impl Default for PbrMetallicRoughness {
    fn default() -> (r: Self)
        ensures
            r.is_default(),
    {
        Self {
            base_color_factor: default_base_color_factor(),
            metallic_factor: F32_ONE,
            roughness_factor: F32_ONE,
            metallic_roughness_texture: None,
            base_color_texture: None,
        }
    }
}

#[derive(Debug, Clone)]
pub struct MaterialDefinitions {
    pub pbr_metallic_roughness: PbrMetallicRoughness,
    pub normal_texture: Option<MaterialTexture>,
    pub occlusion_texture: Option<MaterialTexture>,
    pub emissive_texture: Option<MaterialTexture>,
    pub emissive_factor: Option<[u32; 3]>,
    pub alpha_mode: String,
    pub alpha_cutoff: u32,
    pub double_sided: bool,
    pub cull_face: String,
}

impl MaterialDefinitions {
    /// Every field has the value that a record starts from.
    pub open spec fn is_default(&self) -> bool {
        &&& self.pbr_metallic_roughness.is_default()
        &&& self.normal_texture is None
        &&& self.occlusion_texture is None
        &&& self.emissive_texture is None
        &&& self.emissive_factor is None
        &&& self.alpha_mode@ == Seq::<char>::empty()
        &&& self.alpha_cutoff == F32_QUARTER
        &&& !self.double_sided
        &&& self.cull_face@ == "none"@
    }
}

impl Default for MaterialDefinitions {
    fn default() -> (r: Self)
        ensures
            r.is_default(),
    {
        Self {
            pbr_metallic_roughness: PbrMetallicRoughness::default(),
            normal_texture: None,
            occlusion_texture: None,
            emissive_texture: None,
            emissive_factor: None,
            alpha_mode: String::new(),
            alpha_cutoff: default_alpha_cutoff(),
            double_sided: false,
            cull_face: default_cull_face(),
        }
    }
}

#[derive(Debug, Clone)]
pub struct MaterialParams {
    pub render_mode: String,
    pub vertex_colors: bool,
    pub vertex_regions: bool,
    pub use_vertex_color_alpha: bool,
    pub transparency: Option<i32>,
    pub reflectivity: Option<i32>,
    pub shininess: Option<i32>,
    pub ambient: Option<Vec<i32>>,
    pub diffuse: Option<Vec<i32>>,
    pub specular: Option<Vec<u32>>,
    pub cast_shadows: Option<bool>,
    pub receive_shadows: Option<bool>,
    pub cull_face: String,
}

impl MaterialParams {
    /// Every field has the value that a record starts from.
    pub open spec fn is_default(&self) -> bool {
        &&& self.render_mode@ == Seq::<char>::empty()
        &&& !self.vertex_colors
        &&& !self.vertex_regions
        &&& !self.use_vertex_color_alpha
        &&& self.transparency is None
        &&& self.reflectivity is None
        &&& self.shininess is None
        &&& self.ambient is None
        &&& self.diffuse is None
        &&& self.specular is None
        &&& self.cast_shadows is None
        &&& self.receive_shadows is None
        &&& self.cull_face@ == Seq::<char>::empty()
    }
}

impl Default for MaterialParams {
    fn default() -> (r: Self)
        ensures
            r.is_default(),
    {
        Self {
            render_mode: String::new(),
            vertex_colors: false,
            vertex_regions: false,
            use_vertex_color_alpha: false,
            transparency: None,
            reflectivity: None,
            shininess: None,
            ambient: None,
            diffuse: None,
            specular: None,
            cast_shadows: None,
            receive_shadows: None,
            cull_face: String::new(),
        }
    }
}

#[derive(Debug, Clone)]
pub struct MaterialDefinitionInfo {
    pub name: String,
    pub dtype: String,
    pub href: String,
    pub params: Option<MaterialParams>,
}

impl MaterialDefinitionInfo {
    /// Every field has the value that a record starts from.
    pub open spec fn is_default(&self) -> bool {
        &&& self.name@ == Seq::<char>::empty()
        &&& self.dtype@ == Seq::<char>::empty()
        &&& self.href@ == Seq::<char>::empty()
        &&& self.params is None
    }
}

impl Default for MaterialDefinitionInfo {
    fn default() -> (r: Self)
        ensures
            r.is_default(),
    {
        Self {
            name: String::new(),
            dtype: String::new(),
            href: String::new(),
            params: None,
        }
    }
}

/// Material of stores written before version 1.7.
#[derive(Debug, Clone)]
pub struct MaterialDefinition {
    pub identifier: MaterialDefinitionInfo,
}

impl MaterialDefinition {
    /// Every field has the value that a record starts from.
    pub open spec fn is_default(&self) -> bool {
        &&& self.identifier.is_default()
    }
}

impl Default for MaterialDefinition {
    fn default() -> (r: Self)
        ensures
            r.is_default(),
    {
        Self {
            identifier: MaterialDefinitionInfo::default(),
        }
    }
}

#[derive(Debug, Clone)]
pub struct Texture {
    pub encoding: Option<Vec<String>>,
    pub wrap: Option<Vec<String>>,
    pub atlas: Option<bool>,
    pub uv_set: String,
    pub channels: Option<Vec<String>>,
}

impl Texture {
    /// Every field has the value that a record starts from.
    pub open spec fn is_default(&self) -> bool {
        &&& self.encoding is None
        &&& self.wrap is None
        &&& self.atlas is None
        &&& self.uv_set@ == Seq::<char>::empty()
        &&& self.channels is None
    }
}

impl Default for Texture {
    fn default() -> (r: Self)
        ensures
            r.is_default(),
    {
        Self {
            encoding: None,
            wrap: None,
            atlas: None,
            uv_set: String::new(),
            channels: None,
        }
    }
}

#[derive(Debug, Clone)]
pub struct TextureSetDefinitionFormat {
    pub name: String,
    pub format: String,
}

impl TextureSetDefinitionFormat {
    /// Every field has the value that a record starts from.
    pub open spec fn is_default(&self) -> bool {
        &&& self.name@ == Seq::<char>::empty()
        &&& self.format@ == Seq::<char>::empty()
    }
}

impl Default for TextureSetDefinitionFormat {
    fn default() -> (r: Self)
        ensures
            r.is_default(),
    {
        Self {
            name: String::new(),
            format: String::new(),
        }
    }
}

#[derive(Debug, Clone)]
pub struct TextureSetDefinition {
    pub formats: Vec<TextureSetDefinitionFormat>,
    pub atlas: Option<bool>,
}

impl TextureSetDefinition {
    /// Every field has the value that a record starts from.
    pub open spec fn is_default(&self) -> bool {
        &&& self.formats@.len() == 0
        &&& self.atlas is None
    }
}

impl Default for TextureSetDefinition {
    fn default() -> (r: Self)
        ensures
            r.is_default(),
    {
        Self {
            formats: Vec::new(),
            atlas: None,
        }
    }
}

impl TextureSetDefinition {
    /// A set of one format holds no compressed texture, a set of two holds
    /// one; any other number of formats is refused.
    pub fn has_compressed_textures(&self) -> (r: Result<bool, &str>)
        ensures
            match r {
                Ok(b) => (self.formats@.len() == 1 && !b) || (self.formats@.len() == 2 && b),
                Err(msg) => self.formats@.len() != 1 && self.formats@.len() != 2 && msg@
                    == "Invalid number of texture formats"@,
            },
    {
        let n: usize = self.formats.len();
        if n == 1 {
            Ok(false)
        } else if n == 2 {
            Ok(true)
        } else {
            Err("Invalid number of texture formats")
        }
    }
}

} // verus!

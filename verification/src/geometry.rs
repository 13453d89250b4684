//! Geometry buffers of a layer and the layout of their attributes.

use vstd::prelude::*;
use crate::fields::AttributeValue;

verus! {

/// Topology of a geometry definition that names none.
pub fn default_geometry_definition_topology() -> (s: String)
    ensures
        s@ == "triangle"@,
{
    "triangle".to_owned()
}

/// Encoding of compressed attributes where none is named.
pub fn default_compressed_attributes_encoding() -> (s: String)
    ensures
        s@ == "draco"@,
{
    "draco".to_owned()
}

/// Layout of the vertex positions.
#[derive(Debug, Clone)]
pub struct GeometryPosition {
    pub dtype: String,
    pub component: i32,
}

impl GeometryPosition {
    /// Every field has the value that a record starts from.
    pub open spec fn is_default(&self) -> bool {
        &&& self.dtype@ == "Float32"@
        &&& self.component == 3
    }

    pub fn new() -> (r: Self)
        ensures
            r.is_default(),
    {
        Self {
            dtype: "Float32".to_owned(),
            component: 3,
        }
    }
}

impl Default for GeometryPosition {
    fn default() -> (r: Self)
        ensures
            r.is_default(),
    {
        Self::new()
    }
}

/// Layout of the vertex normals.
#[derive(Debug, Clone)]
pub struct GeometryNormal {
    pub dtype: String,
    pub component: i32,
}

impl GeometryNormal {
    /// Every field has the value that a record starts from.
    pub open spec fn is_default(&self) -> bool {
        &&& self.dtype@ == "Float32"@
        &&& self.component == 3
    }

    pub fn new() -> (r: Self)
        ensures
            r.is_default(),
    {
        Self {
            dtype: "Float32".to_owned(),
            component: 3,
        }
    }
}

impl Default for GeometryNormal {
    fn default() -> (r: Self)
        ensures
            r.is_default(),
    {
        Self::new()
    }
}

/// Layout of the first texture coordinates.
#[derive(Debug, Clone)]
pub struct GeometryUV {
    pub dtype: String,
    pub component: i32,
}

impl GeometryUV {
    /// Every field has the value that a record starts from.
    pub open spec fn is_default(&self) -> bool {
        &&& self.dtype@ == "Float32"@
        &&& self.component == 2
    }

    pub fn new() -> (r: Self)
        ensures
            r.is_default(),
    {
        Self {
            dtype: "Float32".to_owned(),
            component: 2,
        }
    }
}

impl Default for GeometryUV {
    fn default() -> (r: Self)
        ensures
            r.is_default(),
    {
        Self::new()
    }
}

/// Layout of the vertex colours.
#[derive(Debug, Clone)]
pub struct GeometryColor {
    pub dtype: String,
    pub component: i32,
}

impl GeometryColor {
    /// Every field has the value that a record starts from.
    pub open spec fn is_default(&self) -> bool {
        &&& self.dtype@ == "Uint8"@
        &&& self.component == 3
    }

    pub fn new() -> (r: Self)
        ensures
            r.is_default(),
    {
        Self {
            dtype: "Uint8".to_owned(),
            component: 3,
        }
    }
}

impl Default for GeometryColor {
    fn default() -> (r: Self)
        ensures
            r.is_default(),
    {
        Self::new()
    }
}

/// Layout of the feature identifiers.
#[derive(Debug, Clone)]
pub struct GeometryFeatureID {
    pub dtype: String,
    pub component: i32,
    pub binding: String,
}

impl GeometryFeatureID {
    /// Every field has the value that a record starts from.
    pub open spec fn is_default(&self) -> bool {
        &&& self.dtype@ == "UInt32"@
        &&& self.component == 1
        &&& self.binding@ == "per-feature"@
    }

    pub fn new() -> (r: Self)
        ensures
            r.is_default(),
    {
        Self {
            dtype: "UInt32".to_owned(),
            component: 1,
            binding: "per-feature".to_owned(),
        }
    }
}

impl Default for GeometryFeatureID {
    fn default() -> (r: Self)
        ensures
            r.is_default(),
    {
        Self::new()
    }
}

/// Layout of the face-range attribute: for each feature the first and last
/// face that belong to it.
#[derive(Debug, Clone)]
pub struct GeometryFaceRange {
    pub dtype: String,
    pub component: i32,
    pub binding: String,
}

impl GeometryFaceRange {
    /// Every field has the value that a record starts from.
    pub open spec fn is_default(&self) -> bool {
        &&& self.dtype@ == "Uint32"@
        &&& self.component == -1
        &&& self.binding@ == "per-feature"@
    }

    /// A face range with the given component count; -1 stands for a count
    /// that is not known.
    pub fn new(component: Option<i32>) -> (r: Self)
        ensures
            r.dtype@ == "Uint32"@,
            r.binding@ == "per-feature"@,
            r.component == (match component {
                Some(c) => c,
                None => -1i32,
            }),
    {
        match component {
            Some(component) => Self {
                dtype: "Uint32".to_owned(),
                component,
                binding: "per-feature".to_owned(),
            },
            None => Self {
                dtype: "Uint32".to_owned(),
                component: -1,
                binding: "per-feature".to_owned(),
            },
        }
    }
}

impl Default for GeometryFaceRange {
    fn default() -> (r: Self)
        ensures
            r.is_default(),
    {
        Self::new(None)
    }
}

/// Attributes that are stored compressed, and how.
#[derive(Debug, Clone)]
pub struct CompressedAttributes {
    pub encoding: String,
    pub attributes: Option<Vec<String>>,
}

impl CompressedAttributes {
    /// Every field has the value that a record starts from.
    pub open spec fn is_default(&self) -> bool {
        &&& self.encoding@ == "draco"@
        &&& self.attributes is None
    }

    pub fn new() -> (r: Self)
        ensures
            r.is_default(),
    {
        Self { encoding: default_compressed_attributes_encoding(), attributes: None }
    }
}

impl Default for CompressedAttributes {
    fn default() -> (r: Self)
        ensures
            r.is_default(),
    {
        Self::new()
    }
}

#[derive(Debug, Clone)]
pub struct GeometryBuffer {
    pub offset: i32,
    pub position: GeometryPosition,
    pub normal: GeometryNormal,
    pub uv0: GeometryUV,
    pub feature_id: GeometryFeatureID,
    pub face_range: GeometryFaceRange,
    pub compressed_attributes: CompressedAttributes,
}

impl GeometryBuffer {
    /// Every field has the value that a record starts from.
    pub open spec fn is_default(&self) -> bool {
        &&& self.offset == 0
        &&& self.position.is_default()
        &&& self.normal.is_default()
        &&& self.uv0.is_default()
        &&& self.feature_id.is_default()
        &&& self.face_range.is_default()
        &&& self.compressed_attributes.is_default()
    }
}

impl Default for GeometryBuffer {
    fn default() -> (r: Self)
        ensures
            r.is_default(),
    {
        Self {
            offset: 0,
            position: GeometryPosition::default(),
            normal: GeometryNormal::default(),
            uv0: GeometryUV::default(),
            feature_id: GeometryFeatureID::default(),
            face_range: GeometryFaceRange::default(),
            compressed_attributes: CompressedAttributes::default(),
        }
    }
}

#[derive(Debug, Clone)]
pub struct GeometryDefinition {
    pub geometry_buffers: Vec<GeometryBuffer>,
    pub topology: String,
}

impl GeometryDefinition {
    /// Every field has the value that a record starts from.
    pub open spec fn is_default(&self) -> bool {
        &&& self.geometry_buffers@.len() == 0
        &&& self.topology@ == "triangle"@
    }
}

impl Default for GeometryDefinition {
    fn default() -> (r: Self)
        ensures
            r.is_default(),
    {
        Self {
            geometry_buffers: Vec::new(),
            topology: default_geometry_definition_topology(),
        }
    }
}

#[derive(Debug, Clone)]
pub struct GeometryBufferMetadata {
    pub dtype: String,
    pub component: i32,
    pub binding: String,
    pub encoding: String,
}

impl GeometryBufferMetadata {
    /// Every field has the value that a record starts from.
    pub open spec fn is_default(&self) -> bool {
        &&& self.dtype@ == Seq::<char>::empty()
        &&& self.component == 0
        &&& self.binding@ == Seq::<char>::empty()
        &&& self.encoding@ == Seq::<char>::empty()
    }
}

impl Default for GeometryBufferMetadata {
    fn default() -> (r: Self)
        ensures
            r.is_default(),
    {
        Self {
            dtype: String::new(),
            component: 0,
            binding: String::new(),
            encoding: String::new(),
        }
    }
}

#[derive(Debug, Clone)]
pub struct GeometryAttribute {
    pub value_type: String,
    pub values_per_element: i32,
    pub byte_offset: i32,
}

impl GeometryAttribute {
    /// Every field has the value that a record starts from.
    pub open spec fn is_default(&self) -> bool {
        &&& self.value_type@ == Seq::<char>::empty()
        &&& self.values_per_element == 0
        &&& self.byte_offset == 0
    }
}

impl Default for GeometryAttribute {
    fn default() -> (r: Self)
        ensures
            r.is_default(),
    {
        Self {
            value_type: String::new(),
            values_per_element: 0,
            byte_offset: 0,
        }
    }
}

#[derive(Debug, Clone)]
pub struct HeaderAttribute {
    pub property: String,
    pub dtype: String,
}

impl HeaderAttribute {
    /// Every field has the value that a record starts from.
    pub open spec fn is_default(&self) -> bool {
        &&& self.property@ == Seq::<char>::empty()
        &&& self.dtype@ == Seq::<char>::empty()
    }
}

impl Default for HeaderAttribute {
    fn default() -> (r: Self)
        ensures
            r.is_default(),
    {
        Self {
            property: String::new(),
            dtype: String::new(),
        }
    }
}

#[derive(Debug, Clone)]
pub struct VertexAttribute {
    pub position: Option<GeometryAttribute>,
    pub uv0: Option<GeometryAttribute>,
    pub normal: Option<GeometryAttribute>,
    pub color: Option<GeometryAttribute>,
    pub region: Option<GeometryAttribute>,
}

impl VertexAttribute {
    /// Every field has the value that a record starts from.
    pub open spec fn is_default(&self) -> bool {
        &&& self.position is None
        &&& self.uv0 is None
        &&& self.normal is None
        &&& self.color is None
        &&& self.region is None
    }
}

impl Default for VertexAttribute {
    fn default() -> (r: Self)
        ensures
            r.is_default(),
    {
        Self {
            position: None,
            uv0: None,
            normal: None,
            color: None,
            region: None,
        }
    }
}

#[derive(Debug, Clone)]
pub struct FeatureAttribute {
    pub id: Option<AttributeValue>,
    pub face_range: Option<AttributeValue>,
}

impl FeatureAttribute {
    /// Every field has the value that a record starts from.
    pub open spec fn is_default(&self) -> bool {
        &&& self.id is None
        &&& self.face_range is None
    }
}

impl Default for FeatureAttribute {
    fn default() -> (r: Self)
        ensures
            r.is_default(),
    {
        Self {
            id: None,
            face_range: None,
        }
    }
}

/// Geometry layout of stores written before version 1.7.
#[derive(Debug, Clone)]
pub struct DefaultGeometrySchema {
    pub header: Vec<HeaderAttribute>,
    pub topology: String,
    pub ordering: Vec<String>,
    pub vertex_attributes: VertexAttribute,
    pub feature_attribute_order: Vec<String>,
    pub feature_attributes: FeatureAttribute,
}

impl DefaultGeometrySchema {
    /// Every field has the value that a record starts from.
    pub open spec fn is_default(&self) -> bool {
        &&& self.header@.len() == 0
        &&& self.topology@ == Seq::<char>::empty()
        &&& self.ordering@.len() == 0
        &&& self.vertex_attributes.is_default()
        &&& self.feature_attribute_order@.len() == 0
        &&& self.feature_attributes.is_default()
    }
}

impl Default for DefaultGeometrySchema {
    fn default() -> (r: Self)
        ensures
            r.is_default(),
    {
        Self {
            header: Vec::new(),
            topology: String::new(),
            ordering: Vec::new(),
            vertex_attributes: VertexAttribute::default(),
            feature_attribute_order: Vec::new(),
            feature_attributes: FeatureAttribute::default(),
        }
    }
}

} // verus!

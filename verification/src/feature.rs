//! Feature records and the geometry they refer to.

use vstd::prelude::*;
use crate::bits::F64_ZERO;
use crate::geometry::{FeatureAttribute, GeometryAttribute, VertexAttribute};

verus! {

#[derive(Debug, Clone)]
pub struct GeometryReferenceParams {
    pub href: String,
    pub geometry_type: String,
    pub face_range: Option<Vec<i32>>,
    pub lod_geometry: Option<bool>,
}

impl GeometryReferenceParams {
    /// Every field has the value that a record starts from.
    pub open spec fn is_default(&self) -> bool {
        &&& self.href@ == Seq::<char>::empty()
        &&& self.geometry_type@ == Seq::<char>::empty()
        &&& self.face_range is None
        &&& self.lod_geometry is None
    }
}

impl Default for GeometryReferenceParams {
    fn default() -> (r: Self)
        ensures
            r.is_default(),
    {
        Self {
            href: String::new(),
            geometry_type: String::new(),
            face_range: None,
            lod_geometry: None,
        }
    }
}

#[derive(Debug, Clone)]
pub struct VestedGeometryParams {
    pub geometry_type: String,
    pub topology: String,
    pub vertex_attributes: VertexAttribute,
    pub faces: GeometryAttribute,
}

impl VestedGeometryParams {
    /// Every field has the value that a record starts from.
    pub open spec fn is_default(&self) -> bool {
        &&& self.geometry_type@ == Seq::<char>::empty()
        &&& self.topology@ == Seq::<char>::empty()
        &&& self.vertex_attributes.is_default()
        &&& self.faces.is_default()
    }
}

impl Default for VestedGeometryParams {
    fn default() -> (r: Self)
        ensures
            r.is_default(),
    {
        Self {
            geometry_type: String::new(),
            topology: String::new(),
            vertex_attributes: VertexAttribute::default(),
            faces: GeometryAttribute::default(),
        }
    }
}

#[derive(Debug, Clone)]
pub struct SingleComponentParams {
    pub id: usize,
    pub material: String,
    pub texture: String,
    pub material_id: Option<usize>,
    pub texture_id: Option<[usize; 1]>,
    pub region_id: Option<[usize; 1]>,
}

impl SingleComponentParams {
    /// Every field has the value that a record starts from.
    pub open spec fn is_default(&self) -> bool {
        &&& self.id == 0
        &&& self.material@ == Seq::<char>::empty()
        &&& self.texture@ == Seq::<char>::empty()
        &&& self.material_id is None
        &&& self.texture_id is None
        &&& self.region_id is None
    }
}

impl Default for SingleComponentParams {
    fn default() -> (r: Self)
        ensures
            r.is_default(),
    {
        Self {
            id: 0,
            material: String::new(),
            texture: String::new(),
            material_id: None,
            texture_id: None,
            region_id: None,
        }
    }
}

/// The three ways in which a feature's geometry is given.
#[derive(Debug, Clone)]
pub enum GeometryParams {
    Reference(GeometryReferenceParams),
    Vested(VestedGeometryParams),
    SingleComponent(SingleComponentParams),
}

impl GeometryParams {
    /// A reference whose fields all have their starting values.
    pub open spec fn is_default(&self) -> bool {
        match self {
            GeometryParams::Reference(p) => p.is_default(),
            _ => false,
        }
    }
}

impl Default for GeometryParams {
    fn default() -> (r: Self)
        ensures
            r.is_default(),
    {
        Self::Reference(GeometryReferenceParams::default())
    }
}

#[derive(Debug, Clone)]
pub struct Geometry {
    pub id: usize,
    pub geometry_type: String,
    /// Column-major 4 by 4 matrix, each entry the bit pattern of a
    /// double-precision number.
    pub transformation: [u64; 16],
    pub params: GeometryParams,
}

impl Geometry {
    /// Every field has the value that a record starts from.
    pub open spec fn is_default(&self) -> bool {
        &&& self.id == 0
        &&& self.geometry_type@ == Seq::<char>::empty()
        &&& forall|i: int| 0 <= i < 16 ==> self.transformation@[i] == F64_ZERO
        &&& self.params.is_default()
    }
}

impl Default for Geometry {
    fn default() -> (r: Self)
        ensures
            r.is_default(),
    {
        Self {
            id: 0,
            geometry_type: String::new(),
            transformation: [F64_ZERO, F64_ZERO, F64_ZERO, F64_ZERO, F64_ZERO, F64_ZERO, F64_ZERO, F64_ZERO, F64_ZERO, F64_ZERO, F64_ZERO, F64_ZERO, F64_ZERO, F64_ZERO, F64_ZERO, F64_ZERO],
            params: GeometryParams::default(),
        }
    }
}

#[derive(Debug, Clone)]
pub struct FeatureData {
    pub id: usize,
    pub position: Vec<u64>,
    pub pivot_offset: [u64; 3],
    /// Minimum bounding box.
    pub mbb: [u64; 6],
    pub layer: String,
    pub attributes: FeatureAttribute,
    pub geometries: Geometry,
}

impl FeatureData {
    /// Every field has the value that a record starts from.
    pub open spec fn is_default(&self) -> bool {
        &&& self.id == 0
        &&& self.position@.len() == 0
        &&& forall|i: int| 0 <= i < 3 ==> self.pivot_offset@[i] == F64_ZERO
        &&& forall|i: int| 0 <= i < 6 ==> self.mbb@[i] == F64_ZERO
        &&& self.layer@ == Seq::<char>::empty()
        &&& self.attributes.is_default()
        &&& self.geometries.is_default()
    }
}

impl Default for FeatureData {
    fn default() -> (r: Self)
        ensures
            r.is_default(),
    {
        Self {
            id: 0,
            position: Vec::new(),
            pivot_offset: [F64_ZERO, F64_ZERO, F64_ZERO],
            mbb: [F64_ZERO, F64_ZERO, F64_ZERO, F64_ZERO, F64_ZERO, F64_ZERO],
            layer: String::new(),
            attributes: FeatureAttribute::default(),
            geometries: Geometry::default(),
        }
    }
}

} // verus!

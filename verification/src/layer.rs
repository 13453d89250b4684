//! The layer descriptor: what a scene layer says of itself.

use vstd::prelude::*;
use crate::bits::F64_MINUS_ONE;
use crate::drawing::{CachedDrawingInfo, DrawingInfo};
use crate::error::SceneError;
use crate::fields::{AttributeStorageInfo, Field, PopUpInfo, StatisticsInfo};
use crate::geometry::{DefaultGeometrySchema, GeometryDefinition};
use crate::material::{MaterialDefinition, MaterialDefinitions, Texture, TextureSetDefinition};
use crate::paging::{get_node_index_in_node_page, get_node_page_index, offset_in_page, page_of};

verus! {

/// Number of nodes in a page where the descriptor names none.
pub fn default_nodes_per_page() -> (n: i32)
    ensures
        n == 64,
{
    64
}

/// Path of the root node where the store names none.
pub fn default_root_node_path() -> (s: String)
    ensures
        s@ == "./nodes/root"@,
{
    "./nodes/root".to_owned()
}

#[derive(Debug, Clone)]
pub struct SpatialReference {
    pub latest_vcs_wkid: Option<i32>,
    pub latest_wkid: Option<i32>,
    pub vcs_wkid: Option<i32>,
    pub wkid: Option<i32>,
    pub wkt: String,
}

impl SpatialReference {
    /// Every field has the value that a record starts from.
    pub open spec fn is_default(&self) -> bool {
        &&& self.latest_vcs_wkid is None
        &&& self.latest_wkid is None
        &&& self.vcs_wkid is None
        &&& self.wkid is None
        &&& self.wkt@ == Seq::<char>::empty()
    }
}

impl Default for SpatialReference {
    fn default() -> (r: Self)
        ensures
            r.is_default(),
    {
        Self {
            latest_vcs_wkid: None,
            latest_wkid: None,
            vcs_wkid: None,
            wkid: None,
            wkt: String::new(),
        }
    }
}

/// Bounds of the layer along each axis, each the bit pattern of a
/// double-precision number. A record that was not filled holds -1.0 throughout.
#[derive(Debug, Clone)]
pub struct FullExtent {
    pub xmin: u64,
    pub xmax: u64,
    pub ymin: u64,
    pub ymax: u64,
    pub zmin: u64,
    pub zmax: u64,
    pub spatial_reference: Option<SpatialReference>,
}

impl FullExtent {
    /// Every field has the value that a record starts from.
    pub open spec fn is_default(&self) -> bool {
        &&& self.xmin == F64_MINUS_ONE
        &&& self.xmax == F64_MINUS_ONE
        &&& self.ymin == F64_MINUS_ONE
        &&& self.ymax == F64_MINUS_ONE
        &&& self.zmin == F64_MINUS_ONE
        &&& self.zmax == F64_MINUS_ONE
        &&& self.spatial_reference is None
    }
}

impl Default for FullExtent {
    fn default() -> (r: Self)
        ensures
            r.is_default(),
    {
        Self {
            xmin: F64_MINUS_ONE,
            xmax: F64_MINUS_ONE,
            ymin: F64_MINUS_ONE,
            ymax: F64_MINUS_ONE,
            zmin: F64_MINUS_ONE,
            zmax: F64_MINUS_ONE,
            spatial_reference: None,
        }
    }
}

#[derive(Debug, Clone)]
pub struct ElevationInfo {
    pub mode: String,
    /// Bit pattern of a single-precision number.
    pub offset: Option<u32>,
    pub unit: String,
}

impl ElevationInfo {
    /// Every field has the value that a record starts from.
    pub open spec fn is_default(&self) -> bool {
        &&& self.mode@ == Seq::<char>::empty()
        &&& self.offset is None
        &&& self.unit@ == Seq::<char>::empty()
    }
}

impl Default for ElevationInfo {
    fn default() -> (r: Self)
        ensures
            r.is_default(),
    {
        Self {
            mode: String::new(),
            offset: None,
            unit: String::new(),
        }
    }
}

#[derive(Debug, Clone)]
pub struct HeightModelInfo {
    pub height_model: String,
    pub vert_crs: String,
    pub height_unit: String,
}

impl HeightModelInfo {
    /// Every field has the value that a record starts from.
    pub open spec fn is_default(&self) -> bool {
        &&& self.height_model@ == Seq::<char>::empty()
        &&& self.vert_crs@ == Seq::<char>::empty()
        &&& self.height_unit@ == Seq::<char>::empty()
    }
}

impl Default for HeightModelInfo {
    fn default() -> (r: Self)
        ensures
            r.is_default(),
    {
        Self {
            height_model: String::new(),
            vert_crs: String::new(),
            height_unit: String::new(),
        }
    }
}

#[derive(Debug, Clone)]
pub struct ServiceUpdateTimeStamp {
    /// Milliseconds since 1 January 1970; -1 where it is not known.
    pub last_update: i64,
}

impl ServiceUpdateTimeStamp {
    /// Every field has the value that a record starts from.
    pub open spec fn is_default(&self) -> bool {
        &&& self.last_update == -1
    }
}

impl Default for ServiceUpdateTimeStamp {
    fn default() -> (r: Self)
        ensures
            r.is_default(),
    {
        Self {
            last_update: -1,
        }
    }
}

/// How the nodes of the layer are cut into pages.
#[derive(Debug, Clone)]
pub struct NodePageDefinition {
    pub nodes_per_page: i32,
    pub lod_selection_metric_type: String,
    /// Global index of the root node.
    pub root_index: usize,
}

impl NodePageDefinition {
    /// Every field has the value that a record starts from.
    pub open spec fn is_default(&self) -> bool {
        &&& self.nodes_per_page == 64
        &&& self.lod_selection_metric_type@ == Seq::<char>::empty()
        &&& self.root_index == 0
    }
}

impl Default for NodePageDefinition {
    fn default() -> (r: Self)
        ensures
            r.is_default(),
    {
        Self {
            nodes_per_page: default_nodes_per_page(),
            lod_selection_metric_type: String::new(),
            root_index: 0,
        }
    }
}

impl NodePageDefinition {
    /// The page capacity as a count, where the record holds a usable one.
    pub open spec fn spec_page_capacity(&self) -> Option<usize> {
        if self.nodes_per_page > 0 {
            Some(self.nodes_per_page as usize)
        } else {
            None
        }
    }

    /// Builds the definition from the fields that a document held, with the
    /// starting value in place of each absent one: 64 nodes per page, root
    /// index 0. A capacity that is not positive is refused as a decode
    /// failure: no page can be addressed with it.
    pub fn from_parts(
        nodes_per_page: Option<i32>,
        lod_selection_metric_type: String,
        root_index: Option<usize>,
    ) -> (r: Result<Self, SceneError>)
        ensures
            match r {
                Ok(d) => {
                    &&& d.nodes_per_page > 0
                    &&& d.nodes_per_page == (match nodes_per_page {
                        Some(n) => n,
                        None => 64i32,
                    })
                    &&& d.lod_selection_metric_type == lod_selection_metric_type
                    &&& d.root_index == (match root_index {
                        Some(i) => i,
                        None => 0usize,
                    })
                },
                Err(e) => e == SceneError::DecodeFailure && nodes_per_page is Some
                    && nodes_per_page->Some_0 <= 0,
            },
    {
        let nodes_per_page: i32 = match nodes_per_page {
            Some(n) => n,
            None => default_nodes_per_page(),
        };
        if nodes_per_page <= 0 {
            return Err(SceneError::DecodeFailure);
        }
        let root_index: usize = match root_index {
            Some(i) => i,
            None => 0,
        };
        Ok(Self { nodes_per_page, lod_selection_metric_type, root_index })
    }

    /// The number of nodes in a page; `None` where the record holds zero or a
    /// negative number.
    #[verifier::when_used_as_spec(spec_page_capacity)]
    pub fn page_capacity(&self) -> (r: Option<usize>)
        ensures
            r == self.spec_page_capacity(),
    {
        if self.nodes_per_page > 0 {
            Some(self.nodes_per_page as usize)
        } else {
            None
        }
    }

    /// Page and offset of the node `node_index`; `None` where the record
    /// holds no usable capacity.
    pub fn locate(&self, node_index: usize) -> (r: Option<(usize, usize)>)
        ensures
            match self.spec_page_capacity() {
                Some(n) => r == Some(
                    (
                        page_of(node_index as nat, n as nat) as usize,
                        offset_in_page(node_index as nat, n as nat) as usize,
                    ),
                ),
                None => r is None,
            },
    {
        match self.page_capacity() {
            Some(n) => Some(
                (get_node_page_index(node_index, n), get_node_index_in_node_page(node_index, n)),
            ),
            None => None,
        }
    }
}

/// The store of a layer. The encodings, the level-of-detail fields, the
/// indexing scheme and the default texture and material definitions belong to
/// stores written before version 1.7.
#[derive(Debug, Clone)]
pub struct Store {
    pub profile: String,
    pub version: String,
    pub root_node: String,
    pub id: String,
    pub resource_pattern: Option<Vec<String>>,
    /// Bit patterns of double-precision numbers.
    pub extent: Option<Vec<u64>>,
    pub index_crs: String,
    pub vertex_crs: String,
    pub normal_reference_frame: String,
    pub default_geometry_schema: Option<DefaultGeometrySchema>,
    pub nid_encoding: Option<String>,
    pub feature_encoding: Option<String>,
    pub geometry_encoding: Option<String>,
    pub attribute_encoding: Option<String>,
    pub texture_encoding: Option<Vec<String>>,
    pub lod_type: Option<String>,
    pub lod_model: Option<String>,
    pub indexing_scheme: Option<String>,
    pub default_texture_definition: Option<Vec<Texture>>,
    pub default_material_definition: Option<MaterialDefinition>,
}

impl Store {
    /// Every field has the value that a record starts from.
    pub open spec fn is_default(&self) -> bool {
        &&& self.profile@ == Seq::<char>::empty()
        &&& self.version@ == Seq::<char>::empty()
        &&& self.root_node@ == Seq::<char>::empty()
        &&& self.id@ == Seq::<char>::empty()
        &&& self.resource_pattern is None
        &&& self.extent is None
        &&& self.index_crs@ == Seq::<char>::empty()
        &&& self.vertex_crs@ == Seq::<char>::empty()
        &&& self.normal_reference_frame@ == Seq::<char>::empty()
        &&& self.default_geometry_schema is None
        &&& self.nid_encoding is None
        &&& self.feature_encoding is None
        &&& self.geometry_encoding is None
        &&& self.attribute_encoding is None
        &&& self.texture_encoding is None
        &&& self.lod_type is None
        &&& self.lod_model is None
        &&& self.indexing_scheme is None
        &&& self.default_texture_definition is None
        &&& self.default_material_definition is None
    }
}

impl Default for Store {
    fn default() -> (r: Self)
        ensures
            r.is_default(),
    {
        Self {
            profile: String::new(),
            version: String::new(),
            root_node: String::new(),
            id: String::new(),
            resource_pattern: None,
            extent: None,
            index_crs: String::new(),
            vertex_crs: String::new(),
            normal_reference_frame: String::new(),
            default_geometry_schema: None,
            nid_encoding: None,
            feature_encoding: None,
            geometry_encoding: None,
            attribute_encoding: None,
            texture_encoding: None,
            lod_type: None,
            lod_model: None,
            indexing_scheme: None,
            default_texture_definition: None,
            default_material_definition: None,
        }
    }
}

/// The descriptor of a scene layer. It is fetched once and not changed
/// afterwards.
#[derive(Debug, Clone)]
pub struct SceneLayerInfo {
    pub id: usize,
    pub layer_type: String,
    pub capabilities: Vec<String>,
    pub store: Store,
    pub geometry_definitions: Vec<GeometryDefinition>,
    pub node_pages: NodePageDefinition,
    pub name: String,
    pub full_extent: Option<FullExtent>,
    pub spatial_reference: Option<SpatialReference>,
    pub alias: String,
    pub service_update_time_stamp: Option<ServiceUpdateTimeStamp>,
    pub height_model_info: Option<HeightModelInfo>,
    pub drawing_info: Option<DrawingInfo>,
    pub material_definitions: Option<Vec<MaterialDefinitions>>,
    pub texture_set_definitions: Option<Vec<TextureSetDefinition>>,
    pub description: String,
    pub copyright_text: String,
    pub href: String,
    pub cached_drawing_info: Option<CachedDrawingInfo>,
    pub disable_pop_up: Option<bool>,
    pub attribute_storage_info: Option<Vec<AttributeStorageInfo>>,
    pub statistics_info: Option<Vec<StatisticsInfo>>,
    /// Bit pattern of a single-precision number.
    pub z_factor: Option<u32>,
    pub pop_up_info: Option<PopUpInfo>,
    pub fields: Option<Vec<Field>>,
    pub elevation_info: Option<ElevationInfo>,
}

impl SceneLayerInfo {
    /// Every field has the value that a record starts from.
    pub open spec fn is_default(&self) -> bool {
        &&& self.id == 0
        &&& self.layer_type@ == Seq::<char>::empty()
        &&& self.capabilities@.len() == 0
        &&& self.store.is_default()
        &&& self.geometry_definitions@.len() == 0
        &&& self.node_pages.is_default()
        &&& self.name@ == Seq::<char>::empty()
        &&& self.full_extent is None
        &&& self.spatial_reference is None
        &&& self.alias@ == Seq::<char>::empty()
        &&& self.service_update_time_stamp is None
        &&& self.height_model_info is None
        &&& self.drawing_info is None
        &&& self.material_definitions is None
        &&& self.texture_set_definitions is None
        &&& self.description@ == Seq::<char>::empty()
        &&& self.copyright_text@ == Seq::<char>::empty()
        &&& self.href@ == Seq::<char>::empty()
        &&& self.cached_drawing_info is None
        &&& self.disable_pop_up is None
        &&& self.attribute_storage_info is None
        &&& self.statistics_info is None
        &&& self.z_factor is None
        &&& self.pop_up_info is None
        &&& self.fields is None
        &&& self.elevation_info is None
    }
}

impl Default for SceneLayerInfo {
    fn default() -> (r: Self)
        ensures
            r.is_default(),
    {
        Self {
            id: 0,
            layer_type: String::new(),
            capabilities: Vec::new(),
            store: Store::default(),
            geometry_definitions: Vec::new(),
            node_pages: NodePageDefinition::default(),
            name: String::new(),
            full_extent: None,
            spatial_reference: None,
            alias: String::new(),
            service_update_time_stamp: None,
            height_model_info: None,
            drawing_info: None,
            material_definitions: None,
            texture_set_definitions: None,
            description: String::new(),
            copyright_text: String::new(),
            href: String::new(),
            cached_drawing_info: None,
            disable_pop_up: None,
            attribute_storage_info: None,
            statistics_info: None,
            z_factor: None,
            pop_up_info: None,
            fields: None,
            elevation_info: None,
        }
    }
}

/// What a service says of the whole dataset.
#[derive(Debug, Clone)]
pub struct Metadata {
    pub i3s_version: String,
    pub node_count: usize,
}

impl Metadata {
    /// Every field has the value that a record starts from.
    pub open spec fn is_default(&self) -> bool {
        &&& self.i3s_version@ == Seq::<char>::empty()
        &&& self.node_count == 0
    }
}

impl Default for Metadata {
    fn default() -> (r: Self)
        ensures
            r.is_default(),
    {
        Self {
            i3s_version: String::new(),
            node_count: 0,
        }
    }
}

} // verus!

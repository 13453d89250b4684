//! Descriptor of a building scene layer: sublayers, filters and statistics.

use vstd::prelude::*;
use crate::layer::{FullExtent, HeightModelInfo, SpatialReference};

verus! {

/// Layer type where the descriptor names none.
pub fn default_layer_type() -> (s: String)
    ensures
        s@ == "Building"@,
{
    "Building".to_owned()
}

/// Type of a solid filter mode where none is named.
pub fn default_solid_filter_mode_type() -> (s: String)
    ensures
        s@ == "solid"@,
{
    "solid".to_owned()
}

/// Type of a wire-frame filter mode where none is named.
pub fn default_wire_frame_filter_mode_type() -> (s: String)
    ensures
        s@ == "wireFrame"@,
{
    "wireFrame".to_owned()
}

/// A sublayer of a building: a discipline, a category, or a group of them.
#[derive(Debug)]
pub struct SubLayer {
    pub id: i32,
    pub name: String,
    pub layer_type: String,
    pub alias: Option<String>,
    pub discipline: Option<String>,
    pub model_name: Option<String>,
    pub visibility: Option<bool>,
    pub sub_layers: Option<Vec<SubLayer>>,
}

#[derive(Debug)]
pub enum MostFrequentValueTypeOptions {
    Str(String),
    Int(i32),
}

#[derive(Debug)]
pub struct AttributeStats {
    pub field_name: String,
    pub sub_layer_ids: Vec<i32>,
    pub label: Option<String>,
    pub model_name: Option<String>,
    /// Bit pattern of a double-precision number.
    pub min: Option<u64>,
    /// Bit pattern of a double-precision number.
    pub max: Option<u64>,
    pub most_frequent_values: Option<Vec<MostFrequentValueTypeOptions>>,
}

#[derive(Debug)]
pub struct Statistics {
    pub summary: Vec<AttributeStats>,
}

#[derive(Debug)]
pub struct FilterAuthoringInfo {}

#[derive(Debug)]
pub struct FilterModeSolid {
    pub filter_type: String,
}

#[derive(Debug)]
pub struct Edges {
    pub type_field: String,
    pub color: Option<Vec<i64>>,
    /// Bit pattern of a double-precision number.
    pub size: Option<u64>,
    pub transparency: Option<i64>,
    pub extension_length: Option<i64>,
}

#[derive(Debug)]
pub struct FilterModeWireFrame {
    pub filter_type: String,
    pub edges: Option<Edges>,
}

#[derive(Debug)]
pub enum FilterMode {
    Solid(FilterModeSolid),
    WireFrame(FilterModeWireFrame),
}

#[derive(Debug)]
pub struct FilterBlock {
    pub title: String,
    pub filter_mode: FilterMode,
    pub filter_expression: String,
}

#[derive(Debug)]
pub struct Filter {
    pub id: String,
    pub name: String,
    pub description: String,
    pub filter_bloccks: Vec<FilterBlock>,
    pub is_default_filter: Option<bool>,
    pub is_visible: Option<bool>,
    pub filter_authoring_info: Option<FilterAuthoringInfo>,
}

/// The descriptor of a building scene layer.
#[derive(Debug)]
pub struct SceneLayerInfo {
    pub id: i32,
    pub name: String,
    pub version: String,
    pub alias: String,
    pub layer_type: String,
    pub filters: Vec<Filter>,
    pub sub_layers: Vec<SubLayer>,
    pub full_extent: FullExtent,
    pub spatial_reference: SpatialReference,
    pub descrition: Option<String>,
    pub copyright_text: Option<String>,
    pub height_model_info: Option<HeightModelInfo>,
    pub active_filter_id: Option<String>,
    pub statistics_href: Option<String>,
}

} // verus!

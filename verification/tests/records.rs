use i3s::bits::{F32_ONE, F32_QUARTER, F64_MINUS_ONE, F64_ZERO};
use i3s::building::{
    default_layer_type, default_solid_filter_mode_type, default_wire_frame_filter_mode_type,
};
use i3s::feature::{FeatureData, Geometry, GeometryParams};
use i3s::fields::{default_time_encoding, AttributeValue, PopUpInfo};
use i3s::geometry::{
    default_compressed_attributes_encoding, default_geometry_definition_topology,
    CompressedAttributes, GeometryBuffer, GeometryColor, GeometryDefinition, GeometryFaceRange,
    GeometryFeatureID, GeometryNormal, GeometryPosition, GeometryUV,
};
use i3s::layer::{
    default_root_node_path, FullExtent, SceneLayerInfo, ServiceUpdateTimeStamp, Store,
};
use i3s::material::{
    default_alpha_cutoff, default_base_color_factor, default_cull_face, default_texture_value,
    MaterialDefinitions, MaterialTexture, PbrMetallicRoughness, TextureSetDefinition,
    TextureSetDefinitionFormat,
};
use i3s::node::{default_children, Mesh, MeshMaterial, Node, NodePage};
use i3s::statistics::Histogram;

#[test]
fn bit_patterns_stand_for_the_numbers_they_name() {
    assert_eq!(f32::from_bits(F32_ONE), 1.0);
    assert_eq!(f32::from_bits(F32_QUARTER), 0.25);
    assert_eq!(f64::from_bits(F64_ZERO), 0.0);
    assert_eq!(f64::from_bits(F64_MINUS_ONE), -1.0);
}

#[test]
fn geometry_layouts_start_from_their_standard_values() {
    let p = GeometryPosition::new();
    assert_eq!((p.dtype.as_str(), p.component), ("Float32", 3));
    let n = GeometryNormal::new();
    assert_eq!((n.dtype.as_str(), n.component), ("Float32", 3));
    let uv = GeometryUV::new();
    assert_eq!((uv.dtype.as_str(), uv.component), ("Float32", 2));
    let c = GeometryColor::new();
    assert_eq!((c.dtype.as_str(), c.component), ("Uint8", 3));
    let f = GeometryFeatureID::new();
    assert_eq!((f.dtype.as_str(), f.component, f.binding.as_str()), ("UInt32", 1, "per-feature"));
    let d = GeometryUV::default();
    assert_eq!((d.dtype.as_str(), d.component), ("Float32", 2));
}

#[test]
fn face_range_takes_the_given_component() {
    let r = GeometryFaceRange::new(Some(2));
    assert_eq!((r.dtype.as_str(), r.component, r.binding.as_str()), ("Uint32", 2, "per-feature"));
    let r = GeometryFaceRange::new(None);
    assert_eq!((r.dtype.as_str(), r.component, r.binding.as_str()), ("Uint32", -1, "per-feature"));
    let r = GeometryFaceRange::default();
    assert_eq!(r.component, -1);
    let r = GeometryFaceRange::new(Some(-7));
    assert_eq!(r.component, -7);
}

#[test]
fn geometry_buffer_and_definition_defaults() {
    let c = CompressedAttributes::new();
    assert_eq!(c.encoding, "draco");
    assert!(c.attributes.is_none());
    assert_eq!(default_compressed_attributes_encoding(), "draco");
    assert_eq!(default_geometry_definition_topology(), "triangle");
    let d = GeometryDefinition::default();
    assert_eq!(d.topology, "triangle");
    assert!(d.geometry_buffers.is_empty());
    let b = GeometryBuffer::default();
    assert_eq!(b.offset, 0);
    assert_eq!(b.position.component, 3);
    assert_eq!(b.uv0.component, 2);
    assert_eq!(b.feature_id.dtype, "UInt32");
    assert_eq!(b.face_range.component, -1);
    assert_eq!(b.compressed_attributes.encoding, "draco");
}

#[test]
fn texture_set_tells_whether_it_holds_compressed_textures() {
    let format = |name: &str| TextureSetDefinitionFormat {
        name: name.to_string(),
        format: "jpg".to_string(),
    };
    let mut set = TextureSetDefinition::default();
    assert_eq!(set.has_compressed_textures(), Err("Invalid number of texture formats"));
    set.formats.push(format("0"));
    assert_eq!(set.has_compressed_textures(), Ok(false));
    set.formats.push(format("0_0_1"));
    assert_eq!(set.has_compressed_textures(), Ok(true));
    set.formats.push(format("0_0_2"));
    assert_eq!(set.has_compressed_textures(), Err("Invalid number of texture formats"));
}

#[test]
fn material_defaults() {
    assert_eq!(f32::from_bits(default_texture_value()), 1.0);
    assert_eq!(f32::from_bits(default_alpha_cutoff()), 0.25);
    assert_eq!(default_base_color_factor().map(f32::from_bits), [1.0, 1.0, 1.0, 1.0]);
    assert_eq!(default_cull_face(), "none");
    let t = MaterialTexture::default();
    assert_eq!(t.texture_set_definition_id, -1);
    assert_eq!(f32::from_bits(t.factor), 1.0);
    assert_eq!(t.tex_coord, 0);
    let p = PbrMetallicRoughness::default();
    assert_eq!(p.base_color_factor.map(f32::from_bits), [1.0, 1.0, 1.0, 1.0]);
    assert_eq!(f32::from_bits(p.metallic_factor), 1.0);
    assert_eq!(f32::from_bits(p.roughness_factor), 1.0);
    assert!(p.base_color_texture.is_none());
    assert!(p.metallic_roughness_texture.is_none());
    let m = MaterialDefinitions::default();
    assert_eq!(f32::from_bits(m.alpha_cutoff), 0.25);
    assert_eq!(m.cull_face, "none");
    assert_eq!(m.alpha_mode, "");
    assert!(!m.double_sided);
    assert!(m.emissive_factor.is_none());
    assert_eq!(f32::from_bits(m.pbr_metallic_roughness.metallic_factor), 1.0);
}

#[test]
fn layer_defaults() {
    let e = FullExtent::default();
    for bits in [e.xmin, e.xmax, e.ymin, e.ymax, e.zmin, e.zmax] {
        assert_eq!(f64::from_bits(bits), -1.0);
    }
    assert!(e.spatial_reference.is_none());
    assert_eq!(ServiceUpdateTimeStamp::default().last_update, -1);
    assert_eq!(default_root_node_path(), "./nodes/root");
    let s = Store::default();
    assert_eq!(s.profile, "");
    assert_eq!(s.root_node, "");
    assert!(s.extent.is_none());
    let l = SceneLayerInfo::default();
    assert_eq!(l.id, 0);
    assert_eq!(l.layer_type, "");
    assert!(l.capabilities.is_empty());
    assert!(l.geometry_definitions.is_empty());
    assert_eq!(l.node_pages.nodes_per_page, 64);
    assert_eq!(l.node_pages.root_index, 0);
    assert!(l.full_extent.is_none());
    assert!(l.z_factor.is_none());
    assert!(l.pop_up_info.is_none());
    assert_eq!(l.store.version, "");
}

#[test]
fn field_and_feature_defaults() {
    assert_eq!(default_time_encoding(), "ECMA_ISO8601");
    let v = AttributeValue::default();
    assert_eq!(v.time_encoding, "ECMA_ISO8601");
    assert_eq!(v.value_type, "");
    assert!(v.values_per_element.is_none());
    let p = PopUpInfo::default();
    assert!(p.media_infos.is_none());
    assert!(p.expression_infos.is_none());
    let g = Geometry::default();
    assert_eq!(g.id, 0);
    assert_eq!(g.transformation.map(f64::from_bits), [0.0; 16]);
    assert!(matches!(g.params, GeometryParams::Reference(ref r) if r.href.is_empty()));
    let f = FeatureData::default();
    assert_eq!(f.id, 0);
    assert!(f.position.is_empty());
    assert_eq!(f.pivot_offset.map(f64::from_bits), [0.0; 3]);
    assert_eq!(f.mbb.map(f64::from_bits), [0.0; 6]);
    assert!(f.attributes.id.is_none());
    let h = Histogram::default();
    assert_eq!(f64::from_bits(h.minimum), -1.0);
    assert_eq!(f64::from_bits(h.maximum), -1.0);
    assert!(h.counts.is_empty());
}

#[test]
fn node_and_mesh_defaults() {
    let m = MeshMaterial::default();
    assert_eq!((m.definition, m.resource, m.texel_count_hint), (0, 0, -1));
    let mesh = Mesh::default();
    assert_eq!(mesh.material.texel_count_hint, -1);
    assert_eq!(mesh.geometry.vertex_count, 0);
    assert_eq!(mesh.attribute.resource, 0);
    assert!(default_children().is_empty());
    let n = Node::default();
    assert!(n.is_root());
    assert!(n.is_leaf());
    assert!(n.obb.quanternion.is_none());
    assert!(NodePage::default().nodes.is_empty());
}

#[test]
fn building_layer_defaults() {
    assert_eq!(default_layer_type(), "Building");
    assert_eq!(default_solid_filter_mode_type(), "solid");
    assert_eq!(default_wire_frame_filter_mode_type(), "wireFrame");
}

use i3s::error::SceneError;
use i3s::layer::{default_nodes_per_page, NodePageDefinition, SceneLayerInfo};
use i3s::paging::{get_node_index_in_node_page, get_node_page_index};

#[test]
fn page_and_offset_of_known_indices() {
    assert_eq!(get_node_page_index(0, 64), 0);
    assert_eq!(get_node_index_in_node_page(0, 64), 0);
    assert_eq!(get_node_page_index(63, 64), 0);
    assert_eq!(get_node_index_in_node_page(63, 64), 63);
    assert_eq!(get_node_page_index(64, 64), 1);
    assert_eq!(get_node_index_in_node_page(64, 64), 0);
    assert_eq!(get_node_page_index(130, 64), 2);
    assert_eq!(get_node_index_in_node_page(130, 64), 2);
    assert_eq!(get_node_page_index(7, 1), 7);
    assert_eq!(get_node_index_in_node_page(7, 1), 0);
}

#[test]
fn page_and_offset_recompose_the_index() {
    for n in 1usize..40 {
        for i in 0usize..500 {
            let page = get_node_page_index(i, n);
            let offset = get_node_index_in_node_page(i, n);
            assert_eq!(page * n + offset, i);
            assert!(offset < n);
        }
    }
}

#[test]
fn addressing_is_exact_for_large_indices() {
    // 16_777_217 is the first integer that single precision cannot hold.
    let i: usize = 16_777_217;
    assert_eq!(get_node_page_index(i, 64), 262_144);
    assert_eq!(get_node_index_in_node_page(i, 64), 1);
    let big: usize = usize::MAX;
    let page = get_node_page_index(big, 64);
    let offset = get_node_index_in_node_page(big, 64);
    assert_eq!(page.checked_mul(64).and_then(|p| p.checked_add(offset)), Some(big));
}

#[test]
fn absent_fields_take_their_defaults() {
    let d = NodePageDefinition::from_parts(None, String::new(), None).unwrap();
    assert_eq!(d.nodes_per_page, 64);
    assert_eq!(d.root_index, 0);
    assert_eq!(default_nodes_per_page(), 64);
    let layer = SceneLayerInfo::default();
    assert_eq!(layer.node_pages.nodes_per_page, 64);
    assert_eq!(layer.node_pages.root_index, 0);
    let plain = NodePageDefinition::default();
    assert_eq!(plain.nodes_per_page, 64);
    assert_eq!(plain.root_index, 0);
    assert_eq!(plain.lod_selection_metric_type, "");
}

#[test]
fn given_fields_are_kept() {
    let d = NodePageDefinition::from_parts(Some(128), "maxScreenThresholdSQ".to_string(), Some(5))
        .unwrap();
    assert_eq!(d.nodes_per_page, 128);
    assert_eq!(d.root_index, 5);
    assert_eq!(d.lod_selection_metric_type, "maxScreenThresholdSQ");
}

#[test]
fn capacity_that_is_not_positive_is_refused() {
    assert_eq!(
        NodePageDefinition::from_parts(Some(0), String::new(), None).unwrap_err(),
        SceneError::DecodeFailure
    );
    assert_eq!(
        NodePageDefinition::from_parts(Some(-3), String::new(), Some(1)).unwrap_err(),
        SceneError::DecodeFailure
    );
}

#[test]
fn locate_goes_by_the_capacity_of_the_record() {
    let d = NodePageDefinition::from_parts(Some(10), String::new(), None).unwrap();
    assert_eq!(d.page_capacity(), Some(10));
    assert_eq!(d.locate(0), Some((0, 0)));
    assert_eq!(d.locate(37), Some((3, 7)));
    let mut broken = NodePageDefinition::default();
    broken.nodes_per_page = 0;
    assert_eq!(broken.page_capacity(), None);
    assert_eq!(broken.locate(37), None);
    broken.nodes_per_page = -64;
    assert_eq!(broken.page_capacity(), None);
    assert_eq!(broken.locate(1), None);
}

fn node_pages_of(document: &str) -> Result<NodePageDefinition, SceneError> {
    let value: serde_json::Value =
        serde_json::from_str(document).map_err(|_| SceneError::DecodeFailure)?;
    let pages = value.get("nodePages");
    let capacity = pages
        .and_then(|p| p.get("nodesPerPage"))
        .and_then(|v| v.as_i64())
        .map(|n| i32::try_from(n).unwrap());
    let metric = pages
        .and_then(|p| p.get("lodSelectionMetricType"))
        .and_then(|v| v.as_str())
        .unwrap_or("")
        .to_string();
    let root = pages
        .and_then(|p| p.get("rootIndex"))
        .and_then(|v| v.as_u64())
        .map(|n| usize::try_from(n).unwrap());
    NodePageDefinition::from_parts(capacity, metric, root)
}

#[test]
fn descriptor_document_without_optional_fields() {
    let d = node_pages_of("{\"id\": 0, \"layerType\": \"IntegratedMesh\"}").unwrap();
    assert_eq!(d.nodes_per_page, 64);
    assert_eq!(d.root_index, 0);
    let d = node_pages_of("{\"nodePages\": {\"lodSelectionMetricType\": \"maxScreenThresholdSQ\"}}")
        .unwrap();
    assert_eq!(d.nodes_per_page, 64);
    assert_eq!(d.root_index, 0);
    assert_eq!(d.lod_selection_metric_type, "maxScreenThresholdSQ");
}

#[test]
fn descriptor_document_with_page_fields() {
    let d = node_pages_of(
        "{\"nodePages\": {\"nodesPerPage\": 32, \"rootIndex\": 3, \"unknown\": [1, 2]}}",
    )
    .unwrap();
    assert_eq!(d.nodes_per_page, 32);
    assert_eq!(d.root_index, 3);
    assert_eq!(d.locate(70), Some((2, 6)));
    assert_eq!(
        node_pages_of("{\"nodePages\": {\"nodesPerPage\": 0}}").unwrap_err(),
        SceneError::DecodeFailure
    );
}

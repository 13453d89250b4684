use i3s::error::SceneError;
use i3s::layer::{Metadata, SceneLayerInfo};
use i3s::source::{
    body_of, check_status, decimal_string, descriptor_entry_name, find_node_page_paths, is_gzip,
    is_node_page_path, node_page_entry_name, node_page_rest_path, payload_of, Entry, Reply,
};

#[test]
fn numbers_are_written_in_decimal() {
    assert_eq!(decimal_string(0), "0");
    assert_eq!(decimal_string(9), "9");
    assert_eq!(decimal_string(10), "10");
    assert_eq!(decimal_string(1234567890), "1234567890");
    assert_eq!(decimal_string(usize::MAX), usize::MAX.to_string());
}

#[test]
fn archive_entries_are_named_by_page() {
    assert_eq!(descriptor_entry_name(), "3dSceneLayer.json.gz");
    assert_eq!(node_page_entry_name(0), "nodepages/0.json.gz");
    assert_eq!(node_page_entry_name(12), "nodepages/12.json.gz");
    assert_eq!(node_page_entry_name(305), "nodepages/305.json.gz");
}

#[test]
fn service_paths_are_named_by_page() {
    assert_eq!(SceneLayerInfo::rest_path(), "layers/0");
    assert_eq!(Metadata::rest_path(), "metadata.json");
    assert_eq!(node_page_rest_path(0), "layers/0/nodepages/0");
    assert_eq!(node_page_rest_path(47), "layers/0/nodepages/47");
}

#[test]
fn node_page_names_are_told_apart() {
    assert!(is_node_page_path("nodepages/0.json.gz"));
    assert!(is_node_page_path("layers/0/nodepages/3.json.gz"));
    assert!(is_node_page_path("nodepages"));
    assert!(!is_node_page_path("3dSceneLayer.json.gz"));
    assert!(!is_node_page_path("nodes/0/3dNodeIndexDocument.json.gz"));
    assert!(!is_node_page_path("nodepage/0.json.gz"));
    assert!(!is_node_page_path(""));
}

#[test]
fn node_page_entries_are_picked_in_archive_order() {
    let names = vec![
        "3dSceneLayer.json.gz".to_string(),
        "nodepages/1.json.gz".to_string(),
        "nodes/0/geometries/0.bin.gz".to_string(),
        "nodepages/0.json.gz".to_string(),
        "metadata.json".to_string(),
    ];
    assert_eq!(
        find_node_page_paths(names),
        vec!["nodepages/1.json.gz".to_string(), "nodepages/0.json.gz".to_string()]
    );
    assert!(find_node_page_paths(vec![]).is_empty());
    assert!(find_node_page_paths(vec!["metadata.json".to_string()]).is_empty());
}

#[test]
fn only_success_statuses_pass() {
    assert_eq!(check_status(200), Ok(()));
    assert_eq!(check_status(204), Ok(()));
    assert_eq!(check_status(299), Ok(()));
    assert_eq!(check_status(199), Err(SceneError::HttpStatus(199)));
    assert_eq!(check_status(300), Err(SceneError::HttpStatus(300)));
    assert_eq!(check_status(404), Err(SceneError::HttpStatus(404)));
    assert_eq!(check_status(500), Err(SceneError::HttpStatus(500)));
    assert_eq!(check_status(0), Err(SceneError::HttpStatus(0)));
}

#[test]
fn gzip_payloads_are_recognised() {
    assert!(is_gzip(&[0x1f, 0x8b, 0x08, 0x00]));
    assert!(is_gzip(&[0x1f, 0x8b]));
    assert!(!is_gzip(&[0x1f]));
    assert!(!is_gzip(&[]));
    assert!(!is_gzip(b"{\"nodes\":[]}"));
    assert!(!is_gzip(&[0x8b, 0x1f, 0x08]));
}

#[test]
fn archive_entries_map_to_their_failures() {
    assert_eq!(payload_of(Entry::Missing), Err(SceneError::NotFound));
    assert_eq!(payload_of(Entry::Unreadable), Err(SceneError::DecodeFailure));
    assert_eq!(payload_of(Entry::Stored(vec![1, 2, 3])), Ok(vec![1, 2, 3]));
    assert_eq!(payload_of(Entry::Stored(vec![])), Ok(vec![]));
}

#[test]
fn replies_map_to_their_failures() {
    assert_eq!(body_of(Reply::Failed), Err(SceneError::Transport));
    assert_eq!(body_of(Reply::Answered { status: 200, body: vec![b'{', b'}'] }), Ok(vec![b'{', b'}']));
    assert_eq!(
        body_of(Reply::Answered { status: 404, body: vec![1] }),
        Err(SceneError::HttpStatus(404))
    );
    assert_eq!(
        body_of(Reply::Answered { status: 503, body: vec![] }),
        Err(SceneError::HttpStatus(503))
    );
}

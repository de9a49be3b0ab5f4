use std::collections::BTreeSet;
use vulkust::gltf_doc::{load_gltf_scene, read_gltf};

const DOC: &str = r#"{
  "asset": {"version": "2.0"},
  "scenes": [
    {"name": "a", "nodes": [0, 1, 2]},
    {"name": "main", "nodes": [2, 1, 0, 3]},
    {"nodes": [0]},
    {"name": "broken", "nodes": [7]}
  ],
  "nodes": [{"camera": 0}, {"mesh": 0, "children": [4, 5]}, {}, {"camera": 1, "mesh": 0},
            {"mesh": 1, "children": [6]}, {}, {"mesh": 2}]
}"#;

fn set(v: &[u64]) -> BTreeSet<u64> {
    v.iter().cloned().collect()
}

#[test]
fn gltf_document_is_read() {
    let doc = read_gltf(DOC.as_bytes()).unwrap();
    assert_eq!(doc.scenes.len(), 4);
    assert_eq!(doc.scenes[1], (Some("main".to_string()), vec![2, 1, 0, 3]));
    assert_eq!(doc.scenes[2].0, None);
    assert_eq!(doc.nodes.len(), 7);
    assert_eq!(doc.nodes[0], (true, false, vec![]));
    assert_eq!(doc.nodes[1], (false, true, vec![4, 5]));
    assert_eq!(doc.nodes[3], (true, true, vec![]));
    assert_eq!(doc.nodes[4], (false, true, vec![6]));
    assert!(doc.blob.is_none());
    assert!(read_gltf(b"not a gltf file").is_none());
}

#[test]
fn gltf_scene_is_loaded_by_name() {
    let doc = read_gltf(DOC.as_bytes()).unwrap();
    let s = load_gltf_scene(&doc, "main", 9).unwrap();
    assert_eq!(s.id, 9);
    assert!(!s.has_skybox);
    assert_eq!(s.cameras, set(&[0, 3]));
    assert_eq!(s.active_camera, Some(3));
    assert_eq!(s.models, set(&[1]));
    assert_eq!(s.all_models, set(&[1, 4, 6]));
    assert!(s.lights.is_empty() && s.shadow_maker_lights.is_empty());
    let a = load_gltf_scene(&doc, "a", 1).unwrap();
    assert_eq!(a.active_camera, Some(0));
}

#[test]
fn gltf_scene_failures() {
    let doc = read_gltf(DOC.as_bytes()).unwrap();
    assert!(load_gltf_scene(&doc, "missing", 1).is_none());
    assert!(load_gltf_scene(&doc, "broken", 1).is_none());
    let bad = r#"{"asset": {"version": "2.0"}, "scenes": [{"name": "b", "nodes": [7]}], "nodes": [{}]}"#;
    let doc = read_gltf(bad.as_bytes()).unwrap();
    assert!(load_gltf_scene(&doc, "b", 1).is_none());
}

#[test]
fn short_binary_header_is_no_gltf() {
    let mut bytes = b"glTF".to_vec();
    bytes.extend_from_slice(&2u32.to_le_bytes());
    bytes.extend_from_slice(&11u32.to_le_bytes());
    assert!(read_gltf(&bytes).is_none());
    let mut longer = b"glTF".to_vec();
    longer.extend_from_slice(&2u32.to_le_bytes());
    longer.extend_from_slice(&100u32.to_le_bytes());
    assert!(read_gltf(&longer).is_none());
}

#[test]
fn gltf_descendants_through_cycles_and_bad_children() {
    let cyclic = r#"{"asset": {"version": "2.0"}, "scenes": [{"name": "c", "nodes": [0]}],
        "nodes": [{"mesh": 0, "children": [1]}, {"mesh": 0, "children": [0]}]}"#;
    let doc = read_gltf(cyclic.as_bytes()).unwrap();
    let s = load_gltf_scene(&doc, "c", 3).unwrap();
    assert_eq!(s.models, set(&[0]));
    assert_eq!(s.all_models, set(&[0, 1]));
    let bad = r#"{"asset": {"version": "2.0"}, "scenes": [{"name": "d", "nodes": [0]}],
        "nodes": [{"mesh": 0, "children": [9]}]}"#;
    let doc = read_gltf(bad.as_bytes()).unwrap();
    assert!(load_gltf_scene(&doc, "d", 3).is_none());
}

use vulkust::registry::{color_key, AssetRegistry, NameTable};

#[test]
fn name_table_maps_and_replaces() {
    let mut t = NameTable::new();
    assert_eq!(t.get(&"grass".to_string()), None);
    t.insert("grass".to_string(), 4);
    t.insert("sky".to_string(), 5);
    assert_eq!(t.get(&"grass".to_string()), Some(4));
    assert_eq!(t.get(&"sky".to_string()), Some(5));
    t.insert("grass".to_string(), 9);
    assert_eq!(t.get(&"grass".to_string()), Some(9));
    assert_eq!(t.get(&"sky".to_string()), Some(5));
    assert_eq!(t.get(&"gras".to_string()), None);
}

#[test]
fn color_keys() {
    assert_eq!(color_key([0, 0, 0, 0]), 0);
    assert_eq!(color_key([1, 2, 3, 4]), 0x0102_0304);
    assert_eq!(color_key([255, 255, 255, 255]), u32::MAX);
    assert_ne!(color_key([1, 0, 0, 0]), color_key([0, 0, 0, 1]));
}

#[test]
fn cache_by_name() {
    let mut r = AssetRegistry::new();
    let name = "wood".to_string();
    assert_eq!(r.cached_by_name(&name), None);
    r.register_named(name.clone(), 17);
    assert_eq!(r.cached_by_name(&name), Some(17));
    assert!(r.is_registered(17));
    r.remove(17);
    assert_eq!(r.cached_by_name(&name), None);
    assert!(!r.is_registered(17));
    r.register_named(name.clone(), 18);
    assert_eq!(r.cached_by_name(&name), Some(18));
}

#[test]
fn cache_by_color() {
    let mut r = AssetRegistry::new();
    let white = [255u8, 255, 255, 255];
    assert_eq!(r.cached_by_color(white), None);
    r.register_colored(white, 3);
    assert_eq!(r.cached_by_color(white), Some(3));
    assert_eq!(r.cached_by_color([255, 255, 255, 0]), None);
    r.register(40);
    assert!(r.is_registered(40));
    assert_eq!(r.cached_by_color(white), Some(3));
}

use vulkust::bundle_path::split_resource_path;

fn parts(path: &str) -> (String, String, String) {
    let r = split_resource_path(path);
    (
        String::from_utf8(r.directory).unwrap(),
        String::from_utf8(r.name).unwrap(),
        String::from_utf8(r.file_type).unwrap(),
    )
}

fn owned(a: &str, b: &str, c: &str) -> (String, String, String) {
    (a.to_string(), b.to_string(), c.to_string())
}

#[test]
fn resource_path_with_directory_and_type() {
    assert_eq!(parts("data/models/car.gltf"), owned("data/models", "car", "gltf"));
}

#[test]
fn resource_path_type_keeps_later_dots() {
    assert_eq!(parts("a.b.c"), owned("", "a", "b.c"));
    assert_eq!(parts("x/y.z/w"), owned("x/y.z", "w", ""));
}

#[test]
fn resource_path_edge_cases() {
    assert_eq!(parts(""), owned("", "", ""));
    assert_eq!(parts("dir/"), owned("dir", "", ""));
    assert_eq!(parts("/abs"), owned("", "abs", ""));
    assert_eq!(parts("name"), owned("", "name", ""));
    assert_eq!(parts(".hidden"), owned("", "", "hidden"));
    assert_eq!(parts("dé/ü.png"), owned("dé", "ü", "png"));
}

#[test]
fn resource_path_reassembles() {
    for path in ["data/models/car.gltf", "a.b.c", "dir/", "/abs", ".x", "p/q/r.s.t"] {
        let (d, n, t) = parts(path);
        let mut back = d.clone();
        if path.contains('/') {
            back.push('/');
        }
        back.push_str(&n);
        let file_part = path.rsplit('/').next().unwrap();
        if file_part.contains('.') {
            back.push('.');
        }
        back.push_str(&t);
        assert_eq!(back, path);
    }
}

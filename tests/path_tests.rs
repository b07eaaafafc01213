use mirrord_layer_core::path::absolute_path;

fn norm(p: &str) -> Vec<u8> {
    absolute_path(p.as_bytes())
}

#[test]
fn test_absolute_normal() {
    assert_eq!(norm("/a/b/c"), b"/a/b/c".to_vec());
    assert_eq!(norm("/a/b/../c"), b"/a/c".to_vec());
    assert_eq!(norm("/a/b/./c"), b"/a/b/c".to_vec())
}

#[test]
fn normalize_twice_is_once() {
    for p in ["/a/b/../c", "/a/./b//c/", "/../x/../../y", "/", "a/b/../../..", "/a/b/c/.."] {
        let once = norm(p);
        let twice = absolute_path(&once);
        assert_eq!(once, twice);
    }
}

#[test]
fn parent_of_root_stays_root() {
    assert_eq!(norm("/.."), b"/".to_vec());
    assert_eq!(norm("/../../a"), b"/a".to_vec());
    assert_eq!(norm(""), b"/".to_vec());
}

#[test]
fn repeated_and_trailing_separators() {
    assert_eq!(norm("//a///b/"), b"/a/b".to_vec());
    assert_eq!(norm("/a/b/.."), b"/a".to_vec());
}

#[test]
fn relative_path_is_rooted() {
    assert_eq!(norm("a/./b"), b"/a/b".to_vec());
}

#[test]
fn dotted_names_are_kept() {
    assert_eq!(norm("/a/.hidden/..."), b"/a/.hidden/...".to_vec());
}

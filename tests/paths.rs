use syscalld::path::{components_below, is_within, normalize_path};
use syscalld::path::join_components;

fn b(s: &str) -> Vec<u8> {
    s.as_bytes().to_vec()
}

fn comps(v: &[&str]) -> Vec<Vec<u8>> {
    v.iter().map(|c| b(c)).collect()
}

#[test]
fn normalize_drops_dots_and_empty_components() {
    assert_eq!(normalize_path(&b("/a/./b//c/../d")), comps(&["a", "b", "d"]));
}

#[test]
fn normalize_stops_parent_at_slash() {
    assert_eq!(normalize_path(&b("/../../etc")), comps(&["etc"]));
    assert_eq!(normalize_path(&b("/")), comps(&[]));
    assert_eq!(normalize_path(&b("")), comps(&[]));
}

#[test]
fn normalize_keeps_names_that_start_with_dots() {
    assert_eq!(normalize_path(&b("/...//.x/..y")), comps(&["...", ".x", "..y"]));
}

#[test]
fn target_inside_root_gives_components_below() {
    let root = b("/var/lib/lxc/100/rootfs");
    let target = b("/var/lib/lxc/100/rootfs/dev/null");
    assert_eq!(components_below(&root, &target), Some(comps(&["dev", "null"])));
}

#[test]
fn root_itself_is_within() {
    let root = b("/r/c1/");
    assert_eq!(components_below(&root, &b("/r/c1")), Some(comps(&[])));
    assert!(is_within(&root, &b("/r/c1/.")));
}

#[test]
fn sibling_with_longer_name_is_outside() {
    assert!(!is_within(&b("/r/c1"), &b("/r/c10/x")));
}

#[test]
fn parent_steps_out_of_root() {
    assert_eq!(components_below(&b("/r/c1"), &b("/r/c1/dev/../../c2/x")), None);
    assert!(is_within(&b("/r/c1"), &b("/r/c1/dev/../tmp")));
}

#[test]
fn symlink_resolved_outside_root_is_outside() {
    assert!(!is_within(&b("/var/lib/lxc/100/rootfs"), &b("/etc/passwd")));
}

#[test]
fn components_join_into_an_absolute_path() {
    assert_eq!(join_components(&comps(&["dev", "pts", "9"])), b("/dev/pts/9"));
    assert_eq!(join_components(&comps(&[])), b("/"));
    let root = b("/c/1/rootfs");
    let below = components_below(&root, &b("/c/1/rootfs/./dev//null")).unwrap();
    assert_eq!(join_components(&below), b("/dev/null"));
}

use jailbox::confine::{confine, security_path_within, to_abs_pathbuf, AccessDecision};
use jailbox::path::normalize_path;

fn permit(root: &str, requested: &str) -> String {
    match confine(root, requested) {
        AccessDecision::Permit(path) => path,
        AccessDecision::Deny(reason) => panic!("denied: {}", reason),
    }
}

fn deny(root: &str, requested: &str) -> String {
    match confine(root, requested) {
        AccessDecision::Permit(path) => panic!("permitted at {}", path),
        AccessDecision::Deny(reason) => reason,
    }
}

#[test]
fn normalize_drops_current_dir_segments() {
    assert_eq!(normalize_path("./a/./b/."), "a/b");
}

#[test]
fn normalize_lets_parent_remove_the_name_before_it() {
    assert_eq!(normalize_path("/path/to/foo/../bar"), "/path/to/bar");
}

#[test]
fn normalize_drops_parent_with_nothing_before_it() {
    assert_eq!(normalize_path("../../etc/passwd"), "etc/passwd");
}

#[test]
fn normalize_lets_parent_remove_the_root_marker() {
    assert_eq!(normalize_path("/../etc"), "etc");
    assert_eq!(normalize_path("/.."), "");
}

#[test]
fn normalize_ignores_duplicate_and_trailing_separators() {
    assert_eq!(normalize_path("a//b///c/"), "a/b/c");
    assert_eq!(normalize_path("//a"), "/a");
    assert_eq!(normalize_path("/"), "/");
}

#[test]
fn normalize_of_empty_path_is_empty() {
    assert_eq!(normalize_path(""), "");
    assert_eq!(normalize_path("."), "");
    assert_eq!(normalize_path(".."), "");
}

#[test]
fn normalize_keeps_names_that_only_begin_with_dots() {
    assert_eq!(normalize_path("a/.../b/..c/.d"), "a/.../b/..c/.d");
}

#[test]
fn confine_permits_a_file_under_the_root() {
    assert_eq!(permit("/ctx", "data.json"), "/ctx/data.json");
    assert_eq!(permit("/ctx", "sub/dir/file.txt"), "/ctx/sub/dir/file.txt");
}

#[test]
fn confine_of_empty_request_is_the_root() {
    assert_eq!(permit("/ctx", ""), "/ctx");
    assert_eq!(permit("/ctx", "."), "/ctx");
}

#[test]
fn confine_of_parent_request_is_the_root() {
    assert_eq!(permit("/ctx", ".."), "/ctx");
}

#[test]
fn confine_keeps_leading_parents_under_the_root() {
    assert_eq!(permit("/ctx", "../../../etc/passwd"), "/ctx/etc/passwd");
    assert_eq!(permit("/ctx", "../../etc/passwd"), "/ctx/etc/passwd");
    assert_eq!(permit("/a/b/c/d", "../../etc/passwd"), "/a/b/c/d/etc/passwd");
    assert_eq!(permit("/ctx", "../secret"), "/ctx/secret");
}

#[test]
fn confine_denies_an_absolute_path_outside_the_root() {
    assert_eq!(deny("/ctx", "/etc/passwd"), "path escapes boundary");
    assert_eq!(deny("/ctx", "/"), "path escapes boundary");
}

#[test]
fn confine_denies_a_sibling_that_shares_a_string_prefix() {
    assert_eq!(deny("/data", "/data-other/file"), "path escapes boundary");
    assert_eq!(deny("/data", "/database"), "path escapes boundary");
}

#[test]
fn confine_permits_an_absolute_path_under_the_root() {
    assert_eq!(permit("/data", "/data/file"), "/data/file");
    assert_eq!(permit("/data", "/data/a/../b"), "/data/b");
}

#[test]
fn confine_permits_the_root_itself() {
    assert_eq!(permit("/ctx", "/ctx"), "/ctx");
    assert_eq!(permit("/ctx/", "/ctx//"), "/ctx");
}

#[test]
fn confine_denies_an_absolute_path_that_climbs_out() {
    assert_eq!(deny("/ctx", "/ctx/../etc"), "path escapes boundary");
}

#[test]
fn confine_ignores_trailing_and_duplicate_separators() {
    assert_eq!(permit("/ctx/", "a//b/"), "/ctx/a/b");
    assert_eq!(permit("//ctx", "a"), "/ctx/a");
}

#[test]
fn confine_treats_name_then_parent_as_nothing() {
    assert_eq!(permit("/ctx", "a/../b"), permit("/ctx", "b"));
    assert_eq!(permit("/ctx", "a/../b"), "/ctx/b");
    assert_eq!(permit("/r/s", "a/../b"), permit("/r/s", "b"));
}

#[test]
fn confine_under_the_file_system_root() {
    assert_eq!(permit("/", "etc/passwd"), "/etc/passwd");
    assert_eq!(permit("/", "/etc/passwd"), "/etc/passwd");
}

#[test]
fn confine_under_a_relative_root_is_lexical() {
    assert_eq!(permit("ctx", "a"), "ctx/a");
    assert_eq!(deny("ctx", "/ctx/a"), "path escapes boundary");
}

#[test]
fn security_path_within_keeps_to_whole_components() {
    assert!(security_path_within("data.json", "/ctx"));
    assert!(security_path_within("a/b/../c", "/ctx"));
    assert!(security_path_within("", "/ctx"));
    assert!(security_path_within("/ctx", "/ctx"));
    assert!(security_path_within("/ctx/sub", "/ctx/"));
    assert!(!security_path_within("/etc/passwd", "/ctx"));
    assert!(!security_path_within("/ctx-other", "/ctx"));
    assert!(!security_path_within("/", "/ctx"));
}

#[test]
fn security_path_within_follows_a_path_that_climbs() {
    assert!(!security_path_within("../x", "/ctx"));
    assert!(!security_path_within("..", "/ctx"));
    assert!(!security_path_within("a/../../x", "/ctx"));
    assert!(!security_path_within("/ctx/../etc", "/ctx"));
    assert!(security_path_within("../ctx/x", "/ctx"));
    assert!(security_path_within("sub/..", "/ctx"));
}

#[test]
fn security_path_within_refuses_the_climb_to_the_password_file() {
    for root in ["/", "/ctx", "/a/b", "/a/b/c", "/a/b/c/d/e", "/etc", "/x/etc"] {
        assert!(!security_path_within("../../etc/passwd", root), "{}", root);
    }
    assert!(security_path_within("../../etc/passwd", "/etc/passwd"));
    assert!(security_path_within("../../etc/passwd", "/srv/etc/passwd"));
}

#[test]
fn security_path_within_is_the_prefix_test_on_to_abs_pathbuf() {
    let cases = [
        ("../x", "/ctx", "/x"),
        ("a/../b", "/ctx", "/ctx/b"),
        ("../../etc/passwd", "/a/b/c", "/a/etc/passwd"),
        ("/ctx/./y", "/ctx", "/ctx/y"),
        ("/other", "/ctx", "/other"),
    ];
    for (test_path, super_path, absolute) in cases {
        assert_eq!(to_abs_pathbuf(test_path, super_path), absolute);
        let under = absolute == super_path || absolute.starts_with(&format!("{}/", super_path));
        assert_eq!(security_path_within(test_path, super_path), under, "{}", test_path);
    }
}

#[test]
fn security_path_within_of_a_normal_form_is_what_confine_decides() {
    for requested in ["../x", "../../etc/passwd", "a/../b", "/etc/passwd", "/ctx/a", "", ".."] {
        let permitted = matches!(confine("/ctx", requested), AccessDecision::Permit(_));
        assert_eq!(security_path_within(&normalize_path(requested), "/ctx"), permitted);
    }
}

#[test]
fn to_abs_pathbuf_joins_relative_targets_behind_the_context() {
    assert_eq!(to_abs_pathbuf("a/b", "/ctx"), "/ctx/a/b");
    assert_eq!(to_abs_pathbuf("../x", "/a/b"), "/a/x");
    assert_eq!(to_abs_pathbuf("", "/ctx/"), "/ctx");
}

#[test]
fn to_abs_pathbuf_keeps_absolute_targets() {
    assert_eq!(to_abs_pathbuf("/x/./y/../z", "/ctx"), "/x/z");
}

#[test]
fn permitted_path_is_permitted_again_at_itself() {
    for requested in ["data.json", "a/../b", "../x", "", "/ctx/deep/./file"] {
        let first = permit("/ctx", requested);
        assert_eq!(permit("/ctx", &first), first);
    }
}

#[test]
fn normalizing_twice_changes_nothing() {
    for path in ["a/../b", "/x//y/./z/..", "../..", "./a", "/", ""] {
        let once = normalize_path(path);
        assert_eq!(normalize_path(&once), once);
    }
}

use zephir::paths::{
    get_artifact_cache, get_atomic_sandbox_path, join_path, parent_dir, sandbox_path_at,
    starts_with_str, split_segments, u64_to_decimal,
};

#[test]
fn artifact_cache_sits_under_cache_root() {
    assert_eq!(get_artifact_cache("zephir-cache/"), "zephir-cache/artifact-cache");
    assert_eq!(get_artifact_cache("zephir-cache"), "zephir-cache/artifact-cache");
    assert_eq!(get_artifact_cache(""), "artifact-cache");
}

#[test]
fn join_inserts_separator_only_where_missing() {
    assert_eq!(join_path("a", "b"), "a/b");
    assert_eq!(join_path("a/", "b"), "a/b");
    assert_eq!(join_path("", "b"), "b");
}

#[test]
fn decimal_rendering_is_exact() {
    assert_eq!(u64_to_decimal(0), "0");
    assert_eq!(u64_to_decimal(7), "7");
    assert_eq!(u64_to_decimal(1024), "1024");
    assert_eq!(u64_to_decimal(1700000000), "1700000000");
    assert_eq!(u64_to_decimal(u64::MAX), "18446744073709551615");
}

#[test]
fn sandbox_path_is_root_plus_seconds() {
    assert_eq!(sandbox_path_at("zephir-sandbox/", 1700000000), "zephir-sandbox/1700000000");
    assert_eq!(sandbox_path_at("zephir-sandbox", 42), "zephir-sandbox/42");
}

#[test]
fn distinct_seconds_give_distinct_sandboxes() {
    let a = sandbox_path_at("zephir-sandbox/", 1700000000);
    let b = sandbox_path_at("zephir-sandbox/", 1700000001);
    assert_ne!(a, b);
}

#[test]
fn atomic_sandbox_path_stays_under_root() {
    let p = get_atomic_sandbox_path("zephir-sandbox/");
    assert!(p.starts_with("zephir-sandbox/"));
    assert!(p.len() > "zephir-sandbox/".len());
}

#[test]
fn split_keeps_empty_segments() {
    let segs = split_segments("a/b");
    assert_eq!(segs, vec!["a", "b"]);
    let segs = split_segments("a//b/");
    assert_eq!(segs, vec!["a", "", "b", ""]);
    let segs = split_segments("");
    assert_eq!(segs, vec![""]);
}

#[test]
fn starts_with_compares_characters() {
    assert!(starts_with_str("dest/a", "dest"));
    assert!(starts_with_str("dest", "dest"));
    assert!(!starts_with_str("dest", "dest/a"));
    assert!(!starts_with_str("desk/a", "dest"));
}

#[test]
fn parent_of_relative_paths() {
    assert_eq!(parent_dir("./hello"), ".");
    assert_eq!(parent_dir("a/b"), "a");
    assert_eq!(parent_dir("hello"), ".");
    assert_eq!(parent_dir("hello/"), ".");
    assert_eq!(parent_dir("/x"), "/");
    assert_eq!(parent_dir("a/b/c"), "a/b");
}

use flatpak_oci_tools::text::{
    concat_str, ends_with_text, join, replace_text, same_text, split_last, starts_with_text,
};

#[test]
fn replace_text_replaces_every_occurrence() {
    assert_eq!(replace_text("a:b:c", ":", "/"), "a/b/c");
    assert_eq!(replace_text("aaa", "aa", "b"), "ba");
    assert_eq!(replace_text("", "x", "y"), "");
    assert_eq!(replace_text("no match", "zz", "y"), "no match");
    assert_eq!(replace_text("héllo wörld", "ö", "o"), "héllo world");
}

#[test]
fn split_last_uses_last_separator() {
    assert_eq!(
        split_last("host:5000/img:tag", ':'),
        Some(("host:5000/img".to_string(), "tag".to_string()))
    );
    assert_eq!(split_last("img", ':'), None);
    assert_eq!(split_last("img:", ':'), Some(("img".to_string(), "".to_string())));
}

#[test]
fn join_follows_path_rules() {
    assert_eq!(join("/a", "b"), "/a/b");
    assert_eq!(join("/a/", "b"), "/a/b");
    assert_eq!(join("/a", "/b"), "/b");
    assert_eq!(join("", "b"), "b");
}

#[test]
fn prefix_suffix_and_equality() {
    assert!(ends_with_text("x.docker.tar", ".docker.tar"));
    assert!(!ends_with_text("tar", ".docker.tar"));
    assert!(starts_with_text("/abs", "/"));
    assert!(!starts_with_text("rel", "/"));
    assert!(same_text("a", "a"));
    assert!(!same_text("a", "b"));
    assert_eq!(concat_str("ab", "cd"), "abcd");
}

use flatpak_oci_tools::cache::{check_layer_digest, get_layer_path, LayerCache, LayerFetch};
use flatpak_oci_tools::digest::{digest_matches, hex_names_digest, layer_digest};

const HELLO_DIGEST: &str =
    "sha256:2cf24dba5fb0a30e26e83b2ac5b9e29e1b161e5c1fa7425e73043362938b9824";

#[test]
fn layer_digest_of_known_content() {
    assert_eq!(layer_digest(b"hello"), HELLO_DIGEST);
    assert_eq!(
        layer_digest(b""),
        "sha256:e3b0c44298fc1c149afbf4c8996fb92427ae41e4649b934ca495991b7852b855"
    );
}

#[test]
fn digest_matches_only_its_content() {
    assert!(digest_matches(b"hello", HELLO_DIGEST));
    assert!(!digest_matches(b"hello!", HELLO_DIGEST));
    assert!(!digest_matches(b"hello", "2cf24dba5fb0a30e26e83b2ac5b9e29e1b161e5c1fa7425e73043362938b9824"));
}

#[test]
fn hex_names_digest_needs_prefix() {
    assert!(hex_names_digest("abc", "sha256:abc"));
    assert!(!hex_names_digest("abc", "abc"));
    assert!(!hex_names_digest("abc", "sha256:abd"));
}

#[test]
fn layer_path_under_store() {
    assert_eq!(
        get_layer_path(HELLO_DIGEST),
        format!("/tmp/var/lib/flatpak-oci-tools/layers/{}", HELLO_DIGEST)
    );
}

#[test]
fn stored_content_resolves_to_its_path() {
    let cache = LayerCache::new("/cache/");
    let path = cache.path_for(HELLO_DIGEST);
    assert_eq!(path, format!("/cache/{}", HELLO_DIGEST));
    assert_eq!(cache.resolve(HELLO_DIGEST, Some(b"hello")), Some(path.clone()));
    assert_eq!(cache.plan_fetch(HELLO_DIGEST, Some(b"hello")), LayerFetch::Cached(path));
}

#[test]
fn corrupt_cache_entry_is_a_miss() {
    let cache = LayerCache::new("/cache");
    assert_eq!(cache.resolve(HELLO_DIGEST, Some(b"hell")), None);
    assert_eq!(
        cache.plan_fetch(HELLO_DIGEST, Some(b"hell")),
        LayerFetch::Download {
            dir: "/cache".to_string(),
            path: format!("/cache/{}", HELLO_DIGEST),
        }
    );
}

#[test]
fn missing_cache_entry_is_a_miss() {
    let cache = LayerCache::new("/cache");
    assert_eq!(cache.resolve(HELLO_DIGEST, None), None);
    assert!(!check_layer_digest(HELLO_DIGEST, None));
    assert!(check_layer_digest(HELLO_DIGEST, Some(b"hello")));
    assert!(!check_layer_digest(HELLO_DIGEST, Some(b"other")));
}

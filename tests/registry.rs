use flatpak_oci_tools::commands::obs_fetch::{pick_candidate, PickError};
use flatpak_oci_tools::commands::pull;
use flatpak_oci_tools::obs::binaries::{binaries_from_listing, format_binaries_path};
use flatpak_oci_tools::obs::container::{manifest_layers, ArchiveError};
use flatpak_oci_tools::obs::{format_request_url, Binary};
use flatpak_oci_tools::oci::{format_blob_url, format_manifest_url, ConfigField};
use flatpak_oci_tools::workdir::SubDir;

fn bins(names: &[&str]) -> Vec<Binary> {
    let entries: Vec<(String, u64, u64)> = names.iter().map(|n| (n.to_string(), 10, 20)).collect();
    binaries_from_listing(&entries, "proj", "repo", "x86_64", "pkg")
}

#[test]
fn registry_addresses() {
    assert_eq!(
        format_manifest_url("https://r.example", "a/b", "latest"),
        "https://r.example/v2/a/b/manifests/latest"
    );
    assert_eq!(
        format_blob_url("https://r.example", "a/b", "sha256:00"),
        "https://r.example/v2/a/b/blobs/sha256:00"
    );
}

#[test]
fn label_lookup() {
    let f = ConfigField {
        labels: vec![("a".to_string(), "1".to_string()), ("b".to_string(), "2".to_string())],
    };
    assert_eq!(f.label("b"), Some("2".to_string()));
    assert_eq!(f.label("c"), None);
}

#[test]
fn listing_becomes_binaries() {
    let b = bins(&["x.docker.tar"]);
    assert_eq!(b.len(), 1);
    assert_eq!(b[0].filename, "x.docker.tar");
    assert_eq!(b[0].size, 10);
    assert_eq!(b[0].mtime, 20);
    assert_eq!(b[0].package, "pkg");
    assert_eq!(b[0].download_path(), "build/proj/repo/x86_64/pkg/x.docker.tar");
    assert_eq!(format_binaries_path("p", "r", "a", "k"), "build/p/r/a/k");
    assert_eq!(format_request_url("https://api.example", "build/p"), "https://api.example/build/p");
}

#[test]
fn output_path_choices() {
    let b = &bins(&["x.docker.tar"])[0];
    assert_eq!(b.output_path(None, None), "x.docker.tar");
    assert_eq!(b.output_path(Some("/d"), None), "/d/x.docker.tar");
    assert_eq!(b.output_path(Some("/d"), Some("img.tar")), "/d/img.tar");
    assert_eq!(b.output_path(None, Some("img.tar")), "img.tar");
}

#[test]
fn single_candidate_is_picked() {
    assert_eq!(pick_candidate(&bins(&["a.rpm", "x.docker.tar", "b.log"])), Ok(1));
}

#[test]
fn no_or_many_candidates() {
    assert_eq!(pick_candidate(&bins(&["a.rpm"])), Err(PickError::NoCandidates));
    assert_eq!(pick_candidate(&bins(&[])), Err(PickError::NoCandidates));
    assert_eq!(
        pick_candidate(&bins(&["x.docker.tar", "y.docker.tar"])),
        Err(PickError::MultipleCandidates)
    );
    assert_eq!(PickError::NoCandidates.message(), "No candidates available");
    assert_eq!(PickError::MultipleCandidates.message(), "Multiple candidates detected");
}

#[test]
fn archive_manifest_needs_one_image() {
    assert_eq!(manifest_layers(vec![]), Err(ArchiveError::EmptyManifest));
    assert_eq!(
        manifest_layers(vec![vec!["a".to_string()], vec!["b".to_string()]]),
        Err(ArchiveError::MultipleImages)
    );
    assert_eq!(
        manifest_layers(vec![vec!["l1/layer.tar".to_string(), "l2/layer.tar".to_string()]]),
        Ok(vec!["l1/layer.tar".to_string(), "l2/layer.tar".to_string()])
    );
}

#[test]
fn pull_image_reference() {
    let args = pull::Args {
        registry: "https://registry.opensuse.org".to_string(),
        project: "home:yudaike:flatpak-oci-container".to_string(),
        repo: "images".to_string(),
        container: "gimp".to_string(),
    };
    assert_eq!(
        args.image(),
        ("home/yudaike/flatpak-oci-container/images/gimp".to_string(), "latest".to_string())
    );
}

#[test]
fn subdir_paths() {
    let d = SubDir::new("/tmp/w", "build");
    assert_eq!(d.path(), "/tmp/w/build");
    assert_eq!(d.path_str(), Some("/tmp/w/build"));
}

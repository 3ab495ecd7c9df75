//! Images of an OCI registry: descriptors, image configuration, and the
//! addresses they are fetched from.
use vstd::prelude::*;

pub mod api;

pub use api::{Blob, Manifest};

verus! {

/// The labels of a label list as plain values.
pub open spec fn labels_view(labels: Seq<(String, String)>) -> Seq<(Seq<char>, Seq<char>)> {
    labels.map_values(|l: (String, String)| (l.0@, l.1@))
}

/// The value of the first label named `key`, if any.
pub open spec fn label_of(labels: Seq<(Seq<char>, Seq<char>)>, key: Seq<char>) -> Option<Seq<char>>
    decreases labels.len(),
{
    if labels.len() == 0 {
        None
    } else if labels[0].0 == key {
        Some(labels[0].1)
    } else {
        label_of(labels.subrange(1, labels.len() as int), key)
    }
}

/// The `config` section of an image configuration.
#[derive(Debug, Clone, PartialEq, Eq)]
pub struct ConfigField {
    /// The image labels, as name and value.
    pub labels: Vec<(String, String)>,
}

/// An image configuration.
#[derive(Debug, Clone, PartialEq, Eq)]
pub struct Config {
    pub author: String,
    pub architecture: String,
    pub os: String,
    pub config: ConfigField,
}

impl ConfigField {
    /// The labels as plain values.
    pub open spec fn view_labels(&self) -> Seq<(Seq<char>, Seq<char>)> {
        labels_view(self.labels@)
    }

    /// The value of the label `key`.
    pub fn label(&self, key: &str) -> (r: Option<String>)
        ensures
            crate::exec::opt_text(r) == label_of(self.view_labels(), key@),
    {
        let mut i: usize = 0;
        assert(self.view_labels().subrange(0, self.labels.len() as int) =~= self.view_labels());
        while i < self.labels.len()
            invariant
                i <= self.labels.len(),
                label_of(self.view_labels(), key@) == label_of(
                    self.view_labels().subrange(i as int, self.labels.len() as int),
                    key@,
                ),
            decreases self.labels.len() - i,
        {
            let ghost rest = self.view_labels().subrange(i as int, self.labels.len() as int);
            assert(rest[0] == (self.labels@[i as int].0@, self.labels@[i as int].1@));
            if crate::text::same_text(self.labels[i].0.as_str(), key) {
                return Some(self.labels[i].1.clone());
            }
            assert(rest.subrange(1, rest.len() as int) =~= self.view_labels().subrange(
                i + 1,
                self.labels.len() as int,
            ));
            i = i + 1;
        }
        None
    }
}

/// The address of the manifest of `name` at `tag` on the registry `base`.
pub open spec fn manifest_url(base: Seq<char>, name: Seq<char>, tag: Seq<char>) -> Seq<char> {
    base + "/v2/"@ + name + "/manifests/"@ + tag
}

/// The address of the blob `digest` of `name` on the registry `base`.
pub open spec fn blob_url(base: Seq<char>, name: Seq<char>, digest: Seq<char>) -> Seq<char> {
    base + "/v2/"@ + name + "/blobs/"@ + digest
}

/// The address of the manifest of `name` at `tag` on the registry `base`.
pub fn format_manifest_url(base: &str, name: &str, tag: &str) -> (r: String)
    ensures
        r@ == manifest_url(base@, name@, tag@),
{
    let mut r = String::from_str(base);
    r.append("/v2/");
    r.append(name);
    r.append("/manifests/");
    r.append(tag);
    r
}

/// The address of the blob `digest` of `name` on the registry `base`.
pub fn format_blob_url(base: &str, name: &str, digest: &str) -> (r: String)
    ensures
        r@ == blob_url(base@, name@, digest@),
{
    let mut r = String::from_str(base);
    r.append("/v2/");
    r.append(name);
    r.append("/blobs/");
    r.append(digest);
    r
}

} // verus!

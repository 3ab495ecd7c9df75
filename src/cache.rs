//! The layer cache: one file per layer blob, named by the blob's digest.
//!
//! A cached file is trusted only when its content hashes to the digest that
//! names it; anything else at that place is treated as absent and fetched
//! again.
use vstd::prelude::*;
use crate::digest::{content_digest, digest_matches};
use crate::exec::opt_text;
use crate::text::{join, join_path};

verus! {

/// Where layer blobs are cached.
pub const FS_LAYERS_STORE: &'static str = "/tmp/var/lib/flatpak-oci-tools/layers";

/// The cache file for the layer `digest` under the cache root `root`.
pub open spec fn layer_path(root: Seq<char>, digest: Seq<char>) -> Seq<char> {
    join_path(root, digest)
}

/// The answer of a lookup of `digest` whose cache file, at `path`, holds
/// `entry` (`None`: there is no such file).
pub open spec fn resolve_entry(path: Seq<char>, entry: Option<Seq<u8>>, digest: Seq<char>) -> Option<
    Seq<char>,
> {
    match entry {
        Some(content) => if content_digest(content) == digest {
            Some(path)
        } else {
            None
        },
        None => None,
    }
}

/// The cache files as a map from path to content.
pub type Files = Map<Seq<char>, Seq<u8>>;

/// What `files` holds at `path`.
pub open spec fn entry_at(files: Files, path: Seq<char>) -> Option<Seq<u8>> {
    if files.contains_key(path) {
        Some(files[path])
    } else {
        None
    }
}

/// A lookup of `digest` in the cache under `root` whose files are `files`.
pub open spec fn resolve_in(files: Files, root: Seq<char>, digest: Seq<char>) -> Option<Seq<char>> {
    let path = layer_path(root, digest);
    resolve_entry(path, entry_at(files, path), digest)
}

/// The cache files after `content` was stored for `digest`.
pub open spec fn store_in(files: Files, root: Seq<char>, digest: Seq<char>, content: Seq<u8>) -> Files {
    files.insert(layer_path(root, digest), content)
}

/// Storing content under its own digest and then looking that digest up
/// gives the cache file, and the file's content has that digest.
pub proof fn lemma_store_then_resolve(
    files: Files,
    root: Seq<char>,
    digest: Seq<char>,
    content: Seq<u8>,
)
    requires
        content_digest(content) == digest,
    ensures
        resolve_in(store_in(files, root, digest, content), root, digest) == Some(
            layer_path(root, digest),
        ),
        content_digest(store_in(files, root, digest, content)[layer_path(root, digest)])
            == digest,
{
}

/// A cache file whose content does not hash to the digest that names it is
/// never handed out: the lookup reports a miss.
pub proof fn lemma_corrupt_entry_is_miss(
    files: Files,
    root: Seq<char>,
    digest: Seq<char>,
    content: Seq<u8>,
)
    requires
        content_digest(content) != digest,
        entry_at(files, layer_path(root, digest)) == Some(content),
    ensures
        resolve_in(files, root, digest) is None,
{
}

/// The content of an optional byte slice.
pub open spec fn bytes_view(entry: Option<&[u8]>) -> Option<Seq<u8>> {
    match entry {
        Some(e) => Some(e@),
        None => None,
    }
}

/// What to do for one layer of an image.
#[derive(Debug, Clone, PartialEq, Eq)]
pub enum LayerFetch {
    /// The cache holds the layer, verified, at this path.
    Cached(String),
    /// The layer must be downloaded to `path`, once `dir` exists.
    Download { dir: String, path: String },
}

/// A cache of layer blobs under one root directory.
#[derive(Debug, Clone, PartialEq, Eq)]
pub struct LayerCache {
    pub root: String,
}

impl LayerCache {
    /// The cache under `root`.
    pub fn new(root: &str) -> (r: LayerCache)
        ensures
            r.root@ == root@,
    {
        LayerCache { root: String::from_str(root) }
    }

    /// The cache under the fixed store location.
    pub fn standard() -> (r: LayerCache)
        ensures
            r.root@ == FS_LAYERS_STORE@,
    {
        LayerCache::new(FS_LAYERS_STORE)
    }

    /// The cache file for the layer `digest`.
    pub fn path_for(&self, digest: &str) -> (r: String)
        ensures
            r@ == layer_path(self.root@, digest@),
    {
        join(self.root.as_str(), digest)
    }

    /// Looks `digest` up, given what its cache file holds (`None`: no file).
    pub fn resolve(&self, digest: &str, entry: Option<&[u8]>) -> (r: Option<String>)
        ensures
            opt_text(r) == resolve_entry(layer_path(self.root@, digest@), bytes_view(entry), digest@),
    {
        match entry {
            Some(content) => {
                if digest_matches(content, digest) {
                    Some(self.path_for(digest))
                } else {
                    None
                }
            },
            None => None,
        }
    }

    /// Decides whether the layer `digest` must be downloaded, given what its
    /// cache file holds (`None`: no file).
    pub fn plan_fetch(&self, digest: &str, entry: Option<&[u8]>) -> (r: LayerFetch)
        ensures
            match r {
                LayerFetch::Cached(p) => resolve_entry(layer_path(self.root@, digest@), bytes_view(entry), digest@) == Some(p@),
                LayerFetch::Download { dir, path } => {
                    &&& resolve_entry(layer_path(self.root@, digest@), bytes_view(entry), digest@) is None
                    &&& dir@ == self.root@
                    &&& path@ == layer_path(self.root@, digest@)
                },
            },
    {
        match self.resolve(digest, entry) {
            Some(p) => LayerFetch::Cached(p),
            None => LayerFetch::Download { dir: self.root.clone(), path: self.path_for(digest) },
        }
    }
}

/// The cache file for the layer `layer` in the fixed store.
pub fn get_layer_path(layer: &str) -> (r: String)
    ensures
        r@ == layer_path(FS_LAYERS_STORE@, layer@),
{
    LayerCache::standard().path_for(layer)
}

/// Whether the cache file of `layer` in the fixed store, which holds `entry`
/// (`None`: no file), is a verified copy of the layer.
pub fn check_layer_digest(layer: &str, entry: Option<&[u8]>) -> (r: bool)
    ensures
        r == resolve_entry(layer_path(FS_LAYERS_STORE@, layer@), bytes_view(entry), layer@) is Some,
{
    LayerCache::standard().resolve(layer, entry).is_some()
}

} // verus!

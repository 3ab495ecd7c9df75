//! The registry's manifest and blob descriptors.
use vstd::prelude::*;

verus! {

/// A blob of the registry, named by its digest.
#[derive(Debug, Clone, PartialEq, Eq)]
pub struct Blob {
    pub media_type: String,
    pub size: u64,
    pub digest: String,
}

/// An image manifest: the config blob and the layers in overlay order.
#[derive(Debug, Clone, PartialEq, Eq)]
pub struct Manifest {
    pub schema_version: u64,
    pub media_type: String,
    pub config: Blob,
    pub layers: Vec<Blob>,
}

/// The digests of `layers`, in order.
pub open spec fn layer_digests(layers: Seq<Blob>) -> Seq<Seq<char>> {
    layers.map_values(|b: Blob| b.digest@)
}

impl Manifest {
    /// The digests of the layers, in overlay order.
    pub fn layer_digests(&self) -> (r: Vec<String>)
        ensures
            crate::exec::texts(r@) == layer_digests(self.layers@),
    {
        let mut r: Vec<String> = Vec::new();
        let mut i: usize = 0;
        while i < self.layers.len()
            invariant
                i <= self.layers.len(),
                crate::exec::texts(r@) == layer_digests(self.layers@.take(i as int)),
            decreases self.layers.len() - i,
        {
            r.push(self.layers[i].digest.clone());
            assert(layer_digests(self.layers@.take(i + 1)) =~= layer_digests(
                self.layers@.take(i as int),
            ).push(self.layers@[i as int].digest@));
            assert(crate::exec::texts(r@) =~= layer_digests(self.layers@.take(i + 1)));
            i = i + 1;
        }
        assert(self.layers@.take(i as int) =~= self.layers@);
        r
    }
}

} // verus!

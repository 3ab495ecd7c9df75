//! The layer list of a saved container image archive.
use vstd::prelude::*;

verus! {

/// Why an image archive's manifest cannot be used.
#[derive(Debug, Clone, PartialEq, Eq)]
pub enum ArchiveError {
    /// The manifest lists no image.
    EmptyManifest,
    /// The manifest lists more than one image.
    MultipleImages,
}

impl ArchiveError {
    /// The error as told to the user.
    pub fn message(&self) -> (r: String)
        ensures
            r@ == match self {
                ArchiveError::EmptyManifest => "Empty manifest"@,
                ArchiveError::MultipleImages => "Multiple elements in manifest"@,
            },
    {
        match self {
            ArchiveError::EmptyManifest => String::from_str("Empty manifest"),
            ArchiveError::MultipleImages => String::from_str("Multiple elements in manifest"),
        }
    }
}

/// The layer paths of the one image that the archive's manifest lists,
/// given the layer list of each listed image.
pub fn manifest_layers(mut images: Vec<Vec<String>>) -> (r: Result<Vec<String>, ArchiveError>)
    ensures
        images.len() == 0 ==> (r matches Err(ArchiveError::EmptyManifest)),
        images.len() > 1 ==> (r matches Err(ArchiveError::MultipleImages)),
        images.len() == 1 ==> (r matches Ok(l) && l@ == images@[0]@),
{
    if images.len() == 0 {
        return Err(ArchiveError::EmptyManifest);
    }
    if images.len() > 1 {
        return Err(ArchiveError::MultipleImages);
    }
    match images.pop() {
        Some(l) => Ok(l),
        None => Err(ArchiveError::EmptyManifest),
    }
}

} // verus!

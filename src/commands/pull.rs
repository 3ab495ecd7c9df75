//! Pulling an image's layers into the layer cache.
use vstd::prelude::*;
use crate::commands::install::{container_path, image_of, split_reference};

verus! {

/// What the pull subcommand is given.
#[derive(Debug, Clone, PartialEq, Eq)]
pub struct Args {
    pub registry: String,
    pub project: String,
    pub repo: String,
    pub container: String,
}

impl Args {
    /// The repository path and tag of the image to pull.
    pub fn image(&self) -> (r: (String, String))
        ensures
            r.0@ == container_path(
                self.project@,
                self.repo@,
                split_reference(self.container@).0,
            ),
            r.1@ == split_reference(self.container@).1,
    {
        image_of(self.project.as_str(), self.repo.as_str(), self.container.as_str())
    }
}

} // verus!

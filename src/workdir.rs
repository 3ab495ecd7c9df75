//! Directories of a scratch working area.
use vstd::prelude::*;
use crate::text::{join, join_path};

verus! {

/// A directory inside a working area.
#[derive(Debug, Clone, PartialEq, Eq)]
pub struct SubDir {
    path: String,
}

impl SubDir {
    /// The directory `name` under `parent`.
    pub fn new(parent: &str, name: &str) -> (r: SubDir)
        ensures
            r.path_view() == join_path(parent@, name@),
    {
        SubDir { path: join(parent, name) }
    }

    /// The directory's path.
    pub closed spec fn path_view(&self) -> Seq<char> {
        self.path@
    }

    /// The directory's path.
    pub fn path(&self) -> (r: &str)
        ensures
            r@ == self.path_view(),
    {
        self.path.as_str()
    }

    /// The directory's path as text; a path of this library is always text.
    pub fn path_str(&self) -> (r: Option<&str>)
        ensures
            r matches Some(s) && s@ == self.path_view(),
    {
        Some(self.path.as_str())
    }
}

} // verus!

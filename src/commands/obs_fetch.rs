//! Fetching the container image among a package's build results.
use vstd::prelude::*;
use crate::obs::Binary;
use crate::text::{ends_with_text, has_suffix};

verus! {

/// What the fetch subcommand is given.
#[derive(Debug, Clone, PartialEq, Eq)]
pub struct Args {
    pub api: String,
    pub username: String,
    pub password: String,
    pub dir: Option<String>,
    pub output: Option<String>,
    pub project: String,
    pub obs_repositoroy: String,
    pub arch: String,
    pub package: String,
}

/// Why no single image can be picked.
#[derive(Debug, Clone, PartialEq, Eq)]
pub enum PickError {
    /// No build result is a container image.
    NoCandidates,
    /// More than one build result is a container image.
    MultipleCandidates,
}

impl PickError {
    /// The error as told to the user.
    pub fn message(&self) -> (r: String)
        ensures
            r@ == match self {
                PickError::NoCandidates => "No candidates available"@,
                PickError::MultipleCandidates => "Multiple candidates detected"@,
            },
    {
        match self {
            PickError::NoCandidates => String::from_str("No candidates available"),
            PickError::MultipleCandidates => String::from_str("Multiple candidates detected"),
        }
    }
}

/// A file of this name is a saved container image.
pub open spec fn is_candidate(filename: Seq<char>) -> bool {
    has_suffix(filename, ".docker.tar"@)
}

/// The position of the one container image among `bins`, or why there is
/// no single one.
pub fn pick_candidate(bins: &Vec<Binary>) -> (r: Result<usize, PickError>)
    ensures
        match r {
            Ok(i) => {
                &&& i < bins.len()
                &&& is_candidate(bins@[i as int].filename@)
                &&& forall|j: int|
                    0 <= j < bins.len() && j != i ==> !is_candidate(#[trigger] bins@[j].filename@)
            },
            Err(PickError::NoCandidates) => forall|j: int|
                0 <= j < bins.len() ==> !is_candidate(#[trigger] bins@[j].filename@),
            Err(PickError::MultipleCandidates) => exists|a: int, b: int|
                0 <= a < b < bins.len() && is_candidate(#[trigger] bins@[a].filename@)
                    && is_candidate(#[trigger] bins@[b].filename@),
        },
{
    let mut found: Option<usize> = None;
    let mut i: usize = 0;
    while i < bins.len()
        invariant
            i <= bins.len(),
            match found {
                Some(k) => {
                    &&& k < i
                    &&& is_candidate(bins@[k as int].filename@)
                    &&& forall|j: int|
                        0 <= j < i && j != k ==> !is_candidate(#[trigger] bins@[j].filename@)
                },
                None => forall|j: int| 0 <= j < i ==> !is_candidate(#[trigger] bins@[j].filename@),
            },
        decreases bins.len() - i,
    {
        if ends_with_text(bins[i].filename.as_str(), ".docker.tar") {
            match found {
                Some(k) => {
                    assert(is_candidate(bins@[k as int].filename@) && is_candidate(
                        bins@[i as int].filename@,
                    ));
                    return Err(PickError::MultipleCandidates);
                },
                None => {
                    found = Some(i);
                },
            }
        }
        i = i + 1;
    }
    match found {
        Some(k) => Ok(k),
        None => Err(PickError::NoCandidates),
    }
}

} // verus!

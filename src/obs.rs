//! The package build service (OBS): where its build results are listed and
//! fetched from.
use vstd::prelude::*;

pub mod binaries;
pub mod container;

pub use binaries::Binary;

verus! {

/// The address of `path` on the service at `api`.
pub open spec fn request_url(api: Seq<char>, path: Seq<char>) -> Seq<char> {
    api + "/"@ + path
}

/// The address of `path` on the service at `api`.
pub fn format_request_url(api: &str, path: &str) -> (r: String)
    ensures
        r@ == request_url(api@, path@),
{
    let mut r = String::from_str(api);
    r.append("/");
    r.append(path);
    r
}

} // verus!

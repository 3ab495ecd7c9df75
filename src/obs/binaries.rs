//! Build results of a package.
use vstd::prelude::*;
use crate::text::{join, join_path};

verus! {

/// One file among the build results of a package.
#[derive(Debug, Clone, PartialEq, Eq)]
pub struct Binary {
    pub filename: String,
    pub size: u64,
    pub mtime: u64,
    pub project: String,
    pub repository: String,
    pub architecture: String,
    pub package: String,
}

/// The listing path of the build results of `pkg` in `proj`, `repo`, `arch`.
pub open spec fn binaries_path(
    proj: Seq<char>,
    repo: Seq<char>,
    arch: Seq<char>,
    pkg: Seq<char>,
) -> Seq<char> {
    "build/"@ + proj + "/"@ + repo + "/"@ + arch + "/"@ + pkg
}

/// The listing path of the build results of `pkg` in `proj`, `repo`, `arch`.
pub fn format_binaries_path(proj: &str, repo: &str, arch: &str, pkg: &str) -> (r: String)
    ensures
        r@ == binaries_path(proj@, repo@, arch@, pkg@),
{
    let mut r = String::from_str("build/");
    r.append(proj);
    r.append("/");
    r.append(repo);
    r.append("/");
    r.append(arch);
    r.append("/");
    r.append(pkg);
    r
}

/// The entry `e` (file name, size, modification time) of the listing of
/// `pkg` in `proj`, `repo`, `arch`, as a binary.
pub open spec fn listed_binary(
    e: (String, u64, u64),
    b: Binary,
    proj: Seq<char>,
    repo: Seq<char>,
    arch: Seq<char>,
    pkg: Seq<char>,
) -> bool {
    &&& b.filename@ == e.0@
    &&& b.size == e.1
    &&& b.mtime == e.2
    &&& b.project@ == proj
    &&& b.repository@ == repo
    &&& b.architecture@ == arch
    &&& b.package@ == pkg
}

/// The listing entries (file name, size, modification time) of `pkg` in
/// `proj`, `repo`, `arch`, as binaries, in order.
pub fn binaries_from_listing(
    entries: &Vec<(String, u64, u64)>,
    proj: &str,
    repo: &str,
    arch: &str,
    pkg: &str,
) -> (r: Vec<Binary>)
    ensures
        r.len() == entries.len(),
        forall|i: int|
            0 <= i < r.len() ==> listed_binary(
                #[trigger] entries@[i],
                r@[i],
                proj@,
                repo@,
                arch@,
                pkg@,
            ),
{
    let mut r: Vec<Binary> = Vec::new();
    let mut i: usize = 0;
    while i < entries.len()
        invariant
            i <= entries.len(),
            r.len() == i,
            forall|j: int|
                0 <= j < i ==> listed_binary(
                    #[trigger] entries@[j],
                    r@[j],
                    proj@,
                    repo@,
                    arch@,
                    pkg@,
                ),
        decreases entries.len() - i,
    {
        let e = &entries[i];
        r.push(
            Binary {
                filename: e.0.clone(),
                size: e.1,
                mtime: e.2,
                project: String::from_str(proj),
                repository: String::from_str(repo),
                architecture: String::from_str(arch),
                package: String::from_str(pkg),
            },
        );
        i = i + 1;
    }
    r
}

impl Binary {
    /// The path the file is fetched from.
    pub open spec fn download_path_view(&self) -> Seq<char> {
        binaries_path(self.project@, self.repository@, self.architecture@, self.package@) + "/"@
            + self.filename@
    }

    /// The path the file is fetched from.
    pub fn download_path(&self) -> (r: String)
        ensures
            r@ == self.download_path_view(),
    {
        let mut r = format_binaries_path(
            self.project.as_str(),
            self.repository.as_str(),
            self.architecture.as_str(),
            self.package.as_str(),
        );
        r.append("/");
        r.append(self.filename.as_str());
        r
    }

    /// Where the file is saved: under the name `output`, else its own
    /// name, in the directory `dir`, else the current one.
    pub open spec fn output_path_view(&self, dir: Option<Seq<char>>, output: Option<Seq<char>>) -> Seq<char> {
        let name = match output {
            Some(o) => o,
            None => self.filename@,
        };
        match dir {
            Some(d) => join_path(d, name),
            None => name,
        }
    }

    /// Where the file is saved: under the name `output`, else its own
    /// name, in the directory `dir`, else the current one.
    pub fn output_path(&self, dir: Option<&str>, output: Option<&str>) -> (r: String)
        ensures
            r@ == self.output_path_view(
                crate::text::opt_str_view(dir),
                crate::text::opt_str_view(output),
            ),
    {
        let name: &str = match output {
            Some(o) => o,
            None => self.filename.as_str(),
        };
        match dir {
            Some(d) => join(d, name),
            None => String::from_str(name),
        }
    }
}

} // verus!

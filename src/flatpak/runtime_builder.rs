//! Publishing a runtime into a repository that the caller prepared.
use vstd::prelude::*;
use crate::exec::{concat_steps, ostree, steps_view, Step, StepView};
use crate::flatpak::{archive_init_command, init_command, runtime_plan, Builder};

verus! {

/// The steps that make sure a repository exists at `repo`, whose parent
/// directories exist, given whether `repo` `exists`.
pub open spec fn init_if_missing_plan(repo: Seq<char>, exists: bool) -> Seq<StepView> {
    if exists {
        seq![]
    } else {
        seq![StepView::Run(archive_init_command(repo))]
    }
}

/// The steps that make sure the publish repository `repo_dir`, whose parent
/// directories exist, holds a store, given whether `repo_dir` `exists`.
pub fn ensure_repo(repo_dir: &str, exists: bool) -> (r: Vec<Step>)
    ensures
        steps_view(r@) == init_if_missing_plan(repo_dir@, exists),
{
    let mut r: Vec<Step> = Vec::new();
    if !exists {
        let init = ostree().arg("init").arg("--repo").arg(repo_dir).arg("--mode=archive-z2");
        assert(init@.args =~= archive_init_command(repo_dir@).args);
        r.push(Step::Run(init));
    }
    assert(steps_view(r@) =~= init_if_missing_plan(repo_dir@, exists));
    r
}

/// The whole runtime build in the scratch directory `tmpdir`: creation of
/// the private store, then the steps that commit the layer archives
/// `layers` in order, derive the runtime `id` for `arch` at `ver`, and
/// publish it into `repo_dir`.
pub fn run(tmpdir: &str, repo_dir: &str, layers: &Vec<String>, id: &str, arch: &str, ver: &str) -> (r:
    Vec<Step>)
    ensures
        steps_view(r@) == seq![StepView::Run(init_command(tmpdir@))] + runtime_plan(
            tmpdir@,
            repo_dir@,
            crate::exec::texts(layers@),
            id@,
            arch@,
            ver@,
        ),
{
    let builder = Builder::new(tmpdir);
    let init = builder.init_steps();
    let build = builder.build_runtime(repo_dir, layers, id, arch, ver);
    concat_steps(init, build)
}

} // verus!

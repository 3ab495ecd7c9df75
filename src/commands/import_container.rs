//! Importing a saved container image as a runtime: its file system is
//! committed as a base, whose `/usr` becomes the runtime, which is then
//! published into a repository.
use vstd::prelude::*;
use crate::exec::{concat_steps, ostree, steps_view, Invocation, InvocationView, Step, StepView};
use crate::flatpak::{
    format_runtime_branch, format_runtime_metadata, metadata_annotation, runtime_branch,
    runtime_metadata,
};
use crate::text::{concat_str, join, join_path};

verus! {

/// What the import subcommand is given.
#[derive(Debug, Clone, PartialEq, Eq)]
pub struct Args {
    pub id: String,
    pub arch: String,
    pub version: String,
    pub image_file: String,
    pub repo: String,
}

/// The branch of the imported file system.
pub open spec fn import_base_branch(id: Seq<char>, arch: Seq<char>, version: Seq<char>) -> Seq<
    char,
> {
    "base/"@ + id + "/"@ + arch + "/"@ + version
}

/// Where the image's file system is assembled in the working area `work`.
pub open spec fn build_dir(work: Seq<char>) -> Seq<char> {
    join_path(work, "build"@)
}

/// The private snapshot store in the working area `work`.
pub open spec fn work_repo(work: Seq<char>) -> Seq<char> {
    join_path(work, "repo"@)
}

/// A snapshot-store command with the given arguments.
pub open spec fn ostree_command(args: Seq<Seq<char>>) -> InvocationView {
    InvocationView { program: "ostree"@, args, cwd: None }
}

/// The steps that prepare the host-font link and `/usr/etc` in the
/// assembled file system `build`.
pub open spec fn prepare_plan(build: Seq<char>) -> Seq<StepView> {
    seq![
        StepView::CreateDirAll(join_path(build, "usr/share/fonts"@)),
        StepView::Symlink {
            target: "/run/host/fonts"@,
            link: join_path(build, "usr/share/fonts/flatpakhostfonts"@),
        },
        StepView::Run(
            InvocationView { program: "cp"@, args: seq!["-r"@, "etc"@, "usr/etc"@], cwd: Some(build) },
        ),
    ]
}

/// The steps of an import with the given arguments, in the working area
/// `work`, assembling the runtime in `subtree`; the image's file system has
/// been unpacked into the build directory.
pub open spec fn import_plan(
    id: Seq<char>,
    arch: Seq<char>,
    version: Seq<char>,
    publish: Seq<char>,
    work: Seq<char>,
    subtree: Seq<char>,
) -> Seq<StepView> {
    let repo = work_repo(work);
    let build = build_dir(work);
    let base = import_base_branch(id, arch, version);
    let branch = runtime_branch(id, arch, version);
    let metadata = runtime_metadata(id, arch, version);
    seq![
        StepView::Run(
            ostree_command(seq!["init"@, "--mode=bare-user-only"@, "--repo"@, repo]),
        ),
    ] + prepare_plan(build) + seq![
        StepView::Run(
            ostree_command(seq!["commit"@, "--repo"@, repo, "-b"@, base, "--tree=dir="@ + build]),
        ),
        StepView::Run(
            ostree_command(
                seq![
                    "checkout"@,
                    "--repo"@,
                    repo,
                    "--subpath"@,
                    "/usr"@,
                    "-U"@,
                    base,
                    join_path(subtree, "files"@),
                ],
            ),
        ),
        StepView::WriteFile { path: join_path(subtree, "metadata"@), contents: metadata },
        StepView::Run(
            ostree_command(
                seq![
                    "commit"@,
                    "--repo"@,
                    repo,
                    "--no-xattrs"@,
                    "--owner-uid=0"@,
                    "--owner-gid=0"@,
                    "--link-checkout-speedup"@,
                    "-s"@,
                    "Commit"@,
                    "--branch"@,
                    branch,
                    subtree,
                    "--add-metadata-string"@,
                    metadata_annotation(metadata),
                ],
            ),
        ),
        StepView::Run(ostree_command(seq!["pull-local"@, "--repo"@, publish, repo, branch])),
        StepView::Run(
            InvocationView {
                program: "flatpak"@,
                args: seq!["build-update-repo"@, publish],
                cwd: None,
            },
        ),
    ]
}

fn prepare_steps(build: &str) -> (r: Vec<Step>)
    ensures
        steps_view(r@) == prepare_plan(build@),
{
    let cp = Invocation::new("cp").arg("-r").arg("etc").arg("usr/etc").current_dir(build);
    assert(cp@.args =~= seq!["-r"@, "etc"@, "usr/etc"@]);
    let mut r: Vec<Step> = Vec::new();
    r.push(Step::CreateDirAll(join(build, "usr/share/fonts")));
    r.push(
        Step::Symlink {
            target: String::from_str("/run/host/fonts"),
            link: join(build, "usr/share/fonts/flatpakhostfonts"),
        },
    );
    r.push(Step::Run(cp));
    assert(steps_view(r@) =~= prepare_plan(build@));
    r
}

fn commit_steps(args: &Args, work: &str, subtree: &str) -> (r: Vec<Step>)
    ensures
        steps_view(r@) == import_plan(
            args.id@,
            args.arch@,
            args.version@,
            args.repo@,
            work@,
            subtree@,
        ).subrange(4, 10),
{
    let id = args.id.as_str();
    let arch = args.arch.as_str();
    let version = args.version.as_str();
    let repo = join(work, "repo");
    let build = join(work, "build");
    let mut base = concat_str("base/", id);
    base.append("/");
    base.append(arch);
    base.append("/");
    base.append(version);
    let branch = format_runtime_branch(id, arch, version);
    let metadata = format_runtime_metadata(id, arch, version);

    let commit = ostree().arg("commit").arg("--repo").arg(repo.as_str()).arg("-b").arg(
        base.as_str(),
    ).arg_string(concat_str("--tree=dir=", build.as_str()));
    let checkout = ostree().arg("checkout").arg("--repo").arg(repo.as_str()).arg("--subpath").arg(
        "/usr",
    ).arg("-U").arg(base.as_str()).arg_string(join(subtree, "files"));
    let runtime = ostree().arg("commit").arg("--repo").arg(repo.as_str()).arg("--no-xattrs").arg(
        "--owner-uid=0",
    ).arg("--owner-gid=0").arg("--link-checkout-speedup").arg("-s").arg("Commit").arg(
        "--branch",
    ).arg(branch.as_str()).arg(subtree).arg("--add-metadata-string").arg_string(
        concat_str("xa.metadata=", metadata.as_str()),
    );
    let pull = ostree().arg("pull-local").arg("--repo").arg(args.repo.as_str()).arg(
        repo.as_str(),
    ).arg(branch.as_str());
    let update = Invocation::new("flatpak").arg("build-update-repo").arg(args.repo.as_str());
    let ghost plan = import_plan(id@, arch@, version@, args.repo@, work@, subtree@);
    assert(StepView::Run(commit@) == plan[4]) by {
        assert(commit@.args =~= seq!["commit"@, "--repo"@, repo@, "-b"@, base@, "--tree=dir="@ + build@]);
    }
    assert(StepView::Run(checkout@) == plan[5]) by {
        assert(checkout@.args =~= seq![
            "checkout"@,
            "--repo"@,
            repo@,
            "--subpath"@,
            "/usr"@,
            "-U"@,
            base@,
            join_path(subtree@, "files"@),
        ]);
    }
    assert(StepView::Run(runtime@) == plan[7]) by {
        assert(runtime@.args =~= seq![
            "commit"@,
            "--repo"@,
            repo@,
            "--no-xattrs"@,
            "--owner-uid=0"@,
            "--owner-gid=0"@,
            "--link-checkout-speedup"@,
            "-s"@,
            "Commit"@,
            "--branch"@,
            branch@,
            subtree@,
            "--add-metadata-string"@,
            metadata_annotation(metadata@),
        ]);
    }
    assert(StepView::Run(pull@) == plan[8]) by {
        assert(pull@.args =~= seq!["pull-local"@, "--repo"@, args.repo@, repo@, branch@]);
    }
    assert(StepView::Run(update@) == plan[9]) by {
        assert(update@.args =~= seq!["build-update-repo"@, args.repo@]);
    }
    let mut r: Vec<Step> = Vec::new();
    r.push(Step::Run(commit));
    r.push(Step::Run(checkout));
    r.push(Step::WriteFile { path: join(subtree, "metadata"), contents: metadata });
    r.push(Step::Run(runtime));
    r.push(Step::Run(pull));
    r.push(Step::Run(update));
    assert(steps_view(r@) =~= plan.subrange(4, 10));
    r
}

/// The steps of an import with `args`, in the working area `work`,
/// assembling the runtime in `subtree`, once the image's file system has
/// been unpacked into the build directory: a private store, the prepared
/// file system committed as the base, its `/usr` with the metadata
/// committed as the runtime, and the runtime published into `args.repo`.
pub fn import_steps(args: &Args, work: &str, subtree: &str) -> (r: Vec<Step>)
    ensures
        steps_view(r@) == import_plan(
            args.id@,
            args.arch@,
            args.version@,
            args.repo@,
            work@,
            subtree@,
        ),
{
    let repo = join(work, "repo");
    let build = join(work, "build");
    let init = ostree().arg("init").arg("--mode=bare-user-only").arg("--repo").arg(repo.as_str());
    assert(init@.args =~= seq!["init"@, "--mode=bare-user-only"@, "--repo"@, repo@]);
    let mut r: Vec<Step> = Vec::new();
    r.push(Step::Run(init));
    let prepare = prepare_steps(build.as_str());
    let r = concat_steps(r, prepare);
    let rest = commit_steps(args, work, subtree);
    let r = concat_steps(r, rest);
    assert(steps_view(r@) =~= import_plan(
        args.id@,
        args.arch@,
        args.version@,
        args.repo@,
        work@,
        subtree@,
    ));
    r
}

} // verus!

//! Building and publishing runtimes and applications with the snapshot
//! store (OSTree) and the Flatpak tools.
//!
//! Every stage depends on what the stage before it committed, so a plan is
//! a strict sequence: the caller runs it in order and abandons it, with its
//! scratch directory, at the first failure.
use vstd::prelude::*;
use crate::exec::{
    flatpak, ostree, steps_view, Invocation, InvocationView, Step, StepView,
};
use crate::text::{concat_str, join, join_path, replace_all, replace_text};

pub mod runtime_builder;
pub mod template;

verus! {

/// The branch that holds the image's full file system.
pub open spec fn base_branch() -> Seq<char> {
    "base"@
}

/// The branch of the runtime `id` for `arch` at `version`.
pub open spec fn runtime_branch(id: Seq<char>, arch: Seq<char>, version: Seq<char>) -> Seq<char> {
    "runtime/"@ + id + "/"@ + arch + "/"@ + version
}

/// The metadata file of the runtime `id` for `arch` at `version`.
pub open spec fn runtime_metadata(id: Seq<char>, arch: Seq<char>, version: Seq<char>) -> Seq<
    char,
> {
    "[Runtime]\nname="@ + id + "\narch="@ + arch + "\nversion="@ + version
}

/// The commit annotation that carries `metadata`.
pub open spec fn metadata_annotation(metadata: Seq<char>) -> Seq<char> {
    "xa.metadata="@ + metadata
}

/// The private snapshot store inside the scratch directory `tmpdir`.
pub open spec fn tmp_repo(tmpdir: Seq<char>) -> Seq<char> {
    join_path(tmpdir, "repo"@)
}

/// Where the `/usr` subtree of the base is assembled.
pub open spec fn subtree_dir(tmpdir: Seq<char>) -> Seq<char> {
    join_path(tmpdir, "subtree"@)
}

/// The tree-source arguments for the layer archives, in the given order.
pub open spec fn tree_sources(layers: Seq<Seq<char>>) -> Seq<Seq<char>> {
    layers.map_values(|l: Seq<char>| "--tree=tar="@ + l)
}

/// Creation of the private snapshot store.
pub open spec fn init_command(tmpdir: Seq<char>) -> InvocationView {
    InvocationView {
        program: "ostree"@,
        args: seq!["init"@, "--mode=bare-user-only"@, "--repo"@, tmp_repo(tmpdir)],
        cwd: Some(tmpdir),
    }
}

/// The commit of the layer archives, overlaid in order, on the base branch.
pub open spec fn base_commit_command(tmpdir: Seq<char>, layers: Seq<Seq<char>>) -> InvocationView {
    InvocationView {
        program: "ostree"@,
        args: seq!["commit"@, "--repo"@, tmp_repo(tmpdir), "-b"@, base_branch()] + tree_sources(
            layers,
        ),
        cwd: Some(tmpdir),
    }
}

/// The checkout of the base's `/usr` as the runtime's files.
pub open spec fn subtree_checkout_command(tmpdir: Seq<char>) -> InvocationView {
    InvocationView {
        program: "ostree"@,
        args: seq![
            "checkout"@,
            "--repo"@,
            tmp_repo(tmpdir),
            "--subpath"@,
            "/usr"@,
            "-U"@,
            base_branch(),
            join_path(subtree_dir(tmpdir), "files"@),
        ],
        cwd: Some(tmpdir),
    }
}

/// The commit of the subtree as the runtime branch, with owners and
/// extended attributes normalised and the metadata attached.
pub open spec fn runtime_commit_command(
    tmpdir: Seq<char>,
    branch: Seq<char>,
    metadata: Seq<char>,
) -> InvocationView {
    InvocationView {
        program: "ostree"@,
        args: seq![
            "commit"@,
            "--repo"@,
            tmp_repo(tmpdir),
            "--no-xattrs"@,
            "--owner-uid=0"@,
            "--owner-gid=0"@,
            "--link-checkout-speedup"@,
            "-s"@,
            "Commit"@,
            "--branch"@,
            branch,
            subtree_dir(tmpdir),
            "--add-metadata-string"@,
            metadata_annotation(metadata),
        ],
        cwd: Some(tmpdir),
    }
}

/// The transfer of `branch` from the private store into the repository `repo`.
pub open spec fn publish_command(tmpdir: Seq<char>, repo: Seq<char>, branch: Seq<char>) -> InvocationView {
    InvocationView {
        program: "ostree"@,
        args: seq!["pull-local"@, "--repo"@, repo, tmp_repo(tmpdir), branch],
        cwd: Some(tmpdir),
    }
}

/// The regeneration of the summary of the repository `repo`.
pub open spec fn update_repo_command(tmpdir: Seq<char>, repo: Seq<char>) -> InvocationView {
    InvocationView {
        program: "flatpak"@,
        args: seq!["build-update-repo"@, repo],
        cwd: Some(tmpdir),
    }
}

/// The steps that turn the layer archives into the runtime `id` for `arch`
/// at `version` and publish it into `repo`.
pub open spec fn runtime_plan(
    tmpdir: Seq<char>,
    repo: Seq<char>,
    layers: Seq<Seq<char>>,
    id: Seq<char>,
    arch: Seq<char>,
    version: Seq<char>,
) -> Seq<StepView> {
    let branch = runtime_branch(id, arch, version);
    let metadata = runtime_metadata(id, arch, version);
    seq![
        StepView::Run(base_commit_command(tmpdir, layers)),
        StepView::CreateDirAll(subtree_dir(tmpdir)),
        StepView::Run(subtree_checkout_command(tmpdir)),
        StepView::WriteFile { path: join_path(subtree_dir(tmpdir), "metadata"@), contents: metadata },
        StepView::Run(runtime_commit_command(tmpdir, branch, metadata)),
        StepView::Run(publish_command(tmpdir, repo, branch)),
        StepView::Run(update_repo_command(tmpdir, repo)),
    ]
}

/// Creation of an archive-mode store at `repo`.
pub open spec fn archive_init_command(repo: Seq<char>) -> InvocationView {
    InvocationView {
        program: "ostree"@,
        args: seq!["init"@, "--repo"@, repo, "--mode=archive-z2"@],
        cwd: None,
    }
}

/// The steps that make sure the publish repository `repo` exists, given
/// whether its directory `exists`.
pub open spec fn ensure_repo_plan(repo: Seq<char>, exists: bool) -> Seq<StepView> {
    if exists {
        seq![]
    } else {
        seq![StepView::CreateDirAll(repo), StepView::Run(archive_init_command(repo))]
    }
}

/// Placeholder for the application id in a manifest template.
pub const APP_ID_PLACEHOLDER: &'static str = "%FLATPAK_OCI_APPID%";

/// Placeholder for the runtime id in a manifest template.
pub const RUNTIME_ID_PLACEHOLDER: &'static str = "%FLATPAK_OCI_RUNTIMEID%";

/// Placeholder for the runtime version in a manifest template.
pub const RUNTIME_VERSION_PLACEHOLDER: &'static str = "%FLATPAK_OCI_RUNTIMEVER%";

/// The manifest `template` with the application id, the runtime id and the
/// runtime version put in place of their placeholders, in that order.
pub open spec fn render_manifest(
    template: Seq<char>,
    app_id: Seq<char>,
    runtime: Seq<char>,
    version: Seq<char>,
) -> Seq<char> {
    let t1 = replace_all(template, "%FLATPAK_OCI_APPID%"@, app_id);
    let t2 = replace_all(t1, "%FLATPAK_OCI_RUNTIMEID%"@, runtime);
    replace_all(t2, "%FLATPAK_OCI_RUNTIMEVER%"@, version)
}

/// Where the application is built.
pub open spec fn app_dir(tmpdir: Seq<char>) -> Seq<char> {
    join_path(tmpdir, "app"@)
}

/// Where the manifest template is checked out.
pub open spec fn template_path(tmpdir: Seq<char>) -> Seq<char> {
    join_path(app_dir(tmpdir), "flatpak.yaml"@)
}

/// The file name of the rendered manifest of the application `id`.
pub open spec fn manifest_name(id: Seq<char>) -> Seq<char> {
    id + ".yaml"@
}

/// The checkout of the manifest template from the base.
pub open spec fn template_checkout_command(tmpdir: Seq<char>) -> InvocationView {
    InvocationView {
        program: "ostree"@,
        args: seq![
            "checkout"@,
            "--repo"@,
            tmp_repo(tmpdir),
            "--subpath=/flatpak.yaml"@,
            "-U"@,
            base_branch(),
            app_dir(tmpdir),
        ],
        cwd: None,
    }
}

/// The build of the application from its manifest, published into `repo`.
pub open spec fn bundler_command(tmpdir: Seq<char>, repo: Seq<char>, id: Seq<char>) -> InvocationView {
    InvocationView {
        program: "flatpak-builder"@,
        args: seq!["--repo"@, repo, "build"@, manifest_name(id)],
        cwd: Some(app_dir(tmpdir)),
    }
}

/// The steps that render the manifest `template` of the application `id`
/// on the runtime `runtime` at `version` and build it into `repo`.
pub open spec fn app_plan(
    tmpdir: Seq<char>,
    repo: Seq<char>,
    template: Seq<char>,
    id: Seq<char>,
    runtime: Seq<char>,
    version: Seq<char>,
) -> Seq<StepView> {
    seq![
        StepView::WriteFile {
            path: join_path(app_dir(tmpdir), manifest_name(id)),
            contents: render_manifest(template, id, runtime, version),
        },
        StepView::Run(bundler_command(tmpdir, repo, id)),
    ]
}

/// The metadata file that a runtime plan writes.
pub open spec fn written_metadata(plan: Seq<StepView>) -> Seq<char> {
    match plan[3] {
        StepView::WriteFile { contents, .. } => contents,
        _ => seq![],
    }
}

/// The annotation that the runtime commit of a runtime plan attaches.
pub open spec fn committed_annotation(plan: Seq<StepView>) -> Seq<char> {
    match plan[4] {
        StepView::Run(c) => c.args.last(),
        _ => seq![],
    }
}

/// Two runs of the runtime pipeline with the same id, architecture and
/// version, in any scratch directories and towards any repositories, write
/// the same metadata file, and each attaches exactly that text to its
/// runtime commit.
pub proof fn lemma_runtime_metadata_reproducible(
    tmpdir1: Seq<char>,
    tmpdir2: Seq<char>,
    repo1: Seq<char>,
    repo2: Seq<char>,
    layers: Seq<Seq<char>>,
    id: Seq<char>,
    arch: Seq<char>,
    version: Seq<char>,
)
    ensures
        written_metadata(runtime_plan(tmpdir1, repo1, layers, id, arch, version)) == written_metadata(
            runtime_plan(tmpdir2, repo2, layers, id, arch, version),
        ),
        written_metadata(runtime_plan(tmpdir1, repo1, layers, id, arch, version)) == runtime_metadata(
            id,
            arch,
            version,
        ),
        committed_annotation(runtime_plan(tmpdir1, repo1, layers, id, arch, version))
            == metadata_annotation(
            written_metadata(runtime_plan(tmpdir1, repo1, layers, id, arch, version)),
        ),
        committed_annotation(runtime_plan(tmpdir2, repo2, layers, id, arch, version))
            == metadata_annotation(
            written_metadata(runtime_plan(tmpdir2, repo2, layers, id, arch, version)),
        ),
{
}

/// A file tree: the content at each path.
pub type Tree = Map<Seq<char>, Seq<char>>;

/// The trees `layers` overlaid in order: where several hold a path, the
/// later one wins.
pub open spec fn overlay(layers: Seq<Tree>) -> Tree
    decreases layers.len(),
{
    if layers.len() == 0 {
        Map::empty()
    } else {
        overlay(layers.drop_last()).union_prefer_right(layers.last())
    }
}

proof fn lemma_overlay_last_writer(layers: Seq<Tree>, j: int, path: Seq<char>)
    requires
        0 <= j < layers.len(),
        layers[j].contains_key(path),
        forall|k: int| j < k < layers.len() ==> !(#[trigger] layers[k]).contains_key(path),
    ensures
        overlay(layers).contains_key(path),
        overlay(layers)[path] == layers[j][path],
    decreases layers.len(),
{
    if j < layers.len() - 1 {
        let init = layers.drop_last();
        assert forall|k: int| j < k < init.len() implies !(#[trigger] init[k]).contains_key(path) by {
            assert(init[k] == layers[k]);
        }
        lemma_overlay_last_writer(init, j, path);
    }
}

/// The base is committed from the layer archives in manifest order, one
/// tree source each; so where the archives hold the trees `contents`, a
/// path of the base holds what the last layer that writes it wrote.
pub proof fn lemma_layer_order_respected(
    tmpdir: Seq<char>,
    repo: Seq<char>,
    layers: Seq<Seq<char>>,
    contents: Seq<Tree>,
    id: Seq<char>,
    arch: Seq<char>,
    version: Seq<char>,
    j: int,
    path: Seq<char>,
)
    requires
        contents.len() == layers.len(),
        0 <= j < layers.len(),
        contents[j].contains_key(path),
        forall|k: int| j < k < contents.len() ==> !(#[trigger] contents[k]).contains_key(path),
    ensures
        runtime_plan(tmpdir, repo, layers, id, arch, version)[0] == StepView::Run(
            base_commit_command(tmpdir, layers),
        ),
        base_commit_command(tmpdir, layers).args.len() == 5 + layers.len(),
        forall|i: int|
            0 <= i < layers.len() ==> #[trigger] base_commit_command(tmpdir, layers).args[5 + i]
                == "--tree=tar="@ + layers[i],
        overlay(contents)[path] == contents[j][path],
{
    lemma_overlay_last_writer(contents, j, path);
}

/// The branch of the runtime `id` for `arch` at `version`.
pub fn format_runtime_branch(id: &str, arch: &str, version: &str) -> (r: String)
    ensures
        r@ == runtime_branch(id@, arch@, version@),
{
    let mut r = String::from_str("runtime/");
    r.append(id);
    r.append("/");
    r.append(arch);
    r.append("/");
    r.append(version);
    r
}

/// The metadata file of the runtime `id` for `arch` at `version`.
pub fn format_runtime_metadata(id: &str, arch: &str, version: &str) -> (r: String)
    ensures
        r@ == runtime_metadata(id@, arch@, version@),
{
    let mut r = String::from_str("[Runtime]\nname=");
    r.append(id);
    r.append("\narch=");
    r.append(arch);
    r.append("\nversion=");
    r.append(version);
    r
}

/// The steps that make sure the publish repository `repo_dir` exists, given
/// whether its directory `exists`: nothing if it does, else the directory and
/// an archive-mode store in it.
pub fn ensure_repo(repo_dir: &str, exists: bool) -> (r: Vec<Step>)
    ensures
        steps_view(r@) == ensure_repo_plan(repo_dir@, exists),
{
    let mut r: Vec<Step> = Vec::new();
    if !exists {
        r.push(Step::CreateDirAll(String::from_str(repo_dir)));
        let init = ostree().arg("init").arg("--repo").arg(repo_dir).arg("--mode=archive-z2");
        assert(init@.args =~= archive_init_command(repo_dir@).args);
        r.push(Step::Run(init));
    }
    assert(steps_view(r@) =~= ensure_repo_plan(repo_dir@, exists));
    r
}

/// Builds runtimes and applications in one scratch directory, which holds a
/// private snapshot store.
#[derive(Debug, Clone, PartialEq, Eq)]
pub struct Builder {
    /// The scratch directory.
    pub tmpdir: String,
}

impl Builder {
    /// A builder working in the scratch directory `tmpdir`.
    pub fn new(tmpdir: &str) -> (r: Builder)
        ensures
            r.tmpdir@ == tmpdir@,
    {
        Builder { tmpdir: String::from_str(tmpdir) }
    }

    /// The private snapshot store.
    pub fn tmp_repo(&self) -> (r: String)
        ensures
            r@ == tmp_repo(self.tmpdir@),
    {
        join(self.tmpdir.as_str(), "repo")
    }

    /// The step that creates the private snapshot store.
    pub fn init_steps(&self) -> (r: Vec<Step>)
        ensures
            steps_view(r@) == seq![StepView::Run(init_command(self.tmpdir@))],
    {
        let repo = self.tmp_repo();
        let cmd = ostree().arg("init").arg("--mode=bare-user-only").arg("--repo").arg_string(
            repo,
        ).current_dir(self.tmpdir.as_str());
        assert(cmd@.args =~= init_command(self.tmpdir@).args);
        let mut r: Vec<Step> = Vec::new();
        r.push(Step::Run(cmd));
        assert(steps_view(r@) =~= seq![StepView::Run(init_command(self.tmpdir@))]);
        r
    }

    fn base_commit(&self, layers: &Vec<String>) -> (r: Invocation)
        ensures
            r@ == base_commit_command(self.tmpdir@, crate::exec::texts(layers@)),
    {
        let mut cmd = ostree().arg("commit").arg("--repo").arg_string(self.tmp_repo()).arg(
            "-b",
        ).arg("base");
        let ghost head = cmd@.args;
        let mut i: usize = 0;
        while i < layers.len()
            invariant
                i <= layers.len(),
                cmd@ == (InvocationView {
                    args: head + tree_sources(crate::exec::texts(layers@).take(i as int)),
                    ..cmd@
                }),
                cmd@.program == "ostree"@,
                cmd@.cwd is None,
            decreases layers.len() - i,
        {
            cmd = cmd.arg_string(concat_str("--tree=tar=", layers[i].as_str()));
            assert(tree_sources(crate::exec::texts(layers@).take(i + 1)) =~= tree_sources(
                crate::exec::texts(layers@).take(i as int),
            ).push("--tree=tar="@ + layers@[i as int]@));
            i = i + 1;
        }
        assert(crate::exec::texts(layers@).take(i as int) =~= crate::exec::texts(layers@));
        let r = cmd.current_dir(self.tmpdir.as_str());
        assert(r@.args =~= base_commit_command(self.tmpdir@, crate::exec::texts(layers@)).args);
        r
    }

    fn subtree_checkout(&self) -> (r: Invocation)
        ensures
            r@ == subtree_checkout_command(self.tmpdir@),
    {
        let subtree = join(self.tmpdir.as_str(), "subtree");
        let r = ostree().arg("checkout").arg("--repo").arg_string(self.tmp_repo()).arg(
            "--subpath",
        ).arg("/usr").arg("-U").arg("base").arg_string(join(subtree.as_str(), "files")).current_dir(
            self.tmpdir.as_str(),
        );
        assert(r@.args =~= subtree_checkout_command(self.tmpdir@).args);
        r
    }

    fn runtime_commit(&self, branch: &str, metadata: &str) -> (r: Invocation)
        ensures
            r@ == runtime_commit_command(self.tmpdir@, branch@, metadata@),
    {
        let r = ostree().arg("commit").arg("--repo").arg_string(self.tmp_repo()).arg(
            "--no-xattrs",
        ).arg("--owner-uid=0").arg("--owner-gid=0").arg("--link-checkout-speedup").arg("-s").arg(
            "Commit",
        ).arg("--branch").arg(branch).arg_string(join(self.tmpdir.as_str(), "subtree")).arg(
            "--add-metadata-string",
        ).arg_string(concat_str("xa.metadata=", metadata)).current_dir(self.tmpdir.as_str());
        assert(r@.args =~= runtime_commit_command(self.tmpdir@, branch@, metadata@).args);
        r
    }

    fn publish(&self, repo_dir: &str, branch: &str) -> (r: Invocation)
        ensures
            r@ == publish_command(self.tmpdir@, repo_dir@, branch@),
    {
        let r = ostree().arg("pull-local").arg("--repo").arg(repo_dir).arg_string(
            self.tmp_repo(),
        ).arg(branch).current_dir(self.tmpdir.as_str());
        assert(r@.args =~= publish_command(self.tmpdir@, repo_dir@, branch@).args);
        r
    }

    fn update_repo(&self, repo_dir: &str) -> (r: Invocation)
        ensures
            r@ == update_repo_command(self.tmpdir@, repo_dir@),
    {
        let r = Invocation::new("flatpak").arg("build-update-repo").arg(repo_dir).current_dir(
            self.tmpdir.as_str(),
        );
        assert(r@.args =~= update_repo_command(self.tmpdir@, repo_dir@).args);
        r
    }

    /// The steps that commit the layer archives `layers`, in manifest order,
    /// as the base; derive the runtime `id` for `arch` at `ver` from its
    /// `/usr`; and publish that runtime into `repo_dir`.
    pub fn build_runtime(
        &self,
        repo_dir: &str,
        layers: &Vec<String>,
        id: &str,
        arch: &str,
        ver: &str,
    ) -> (r: Vec<Step>)
        ensures
            steps_view(r@) == runtime_plan(
                self.tmpdir@,
                repo_dir@,
                crate::exec::texts(layers@),
                id@,
                arch@,
                ver@,
            ),
    {
        let branch = format_runtime_branch(id, arch, ver);
        let metadata = format_runtime_metadata(id, arch, ver);
        let subtree = join(self.tmpdir.as_str(), "subtree");
        let mut r: Vec<Step> = Vec::new();
        r.push(Step::Run(self.base_commit(layers)));
        r.push(Step::CreateDirAll(subtree.clone()));
        r.push(Step::Run(self.subtree_checkout()));
        r.push(
            Step::WriteFile { path: join(subtree.as_str(), "metadata"), contents: metadata.clone() },
        );
        r.push(Step::Run(self.runtime_commit(branch.as_str(), metadata.as_str())));
        r.push(Step::Run(self.publish(repo_dir, branch.as_str())));
        r.push(Step::Run(self.update_repo(repo_dir)));
        assert(steps_view(r@) =~= runtime_plan(
            self.tmpdir@,
            repo_dir@,
            crate::exec::texts(layers@),
            id@,
            arch@,
            ver@,
        ));
        r
    }
}

/// The manifest `template` with the application id, the runtime id and the
/// runtime version put in place of their placeholders, in that order.
pub fn render_app_manifest(template: &str, app_id: &str, runtime: &str, version: &str) -> (r: String)
    ensures
        r@ == render_manifest(template@, app_id@, runtime@, version@),
{
    proof {
        reveal_strlit("%FLATPAK_OCI_APPID%");
        reveal_strlit("%FLATPAK_OCI_RUNTIMEID%");
        reveal_strlit("%FLATPAK_OCI_RUNTIMEVER%");
    }
    let t1 = replace_text(template, APP_ID_PLACEHOLDER, app_id);
    let t2 = replace_text(t1.as_str(), RUNTIME_ID_PLACEHOLDER, runtime);
    replace_text(t2.as_str(), RUNTIME_VERSION_PLACEHOLDER, version)
}

impl Builder {
    /// The step that checks the manifest template out of the base.
    pub fn template_checkout_steps(&self) -> (r: Vec<Step>)
        ensures
            steps_view(r@) == seq![StepView::Run(template_checkout_command(self.tmpdir@))],
    {
        let cmd = ostree().arg("checkout").arg("--repo").arg_string(self.tmp_repo()).arg(
            "--subpath=/flatpak.yaml",
        ).arg("-U").arg("base").arg_string(join(self.tmpdir.as_str(), "app"));
        assert(cmd@.args =~= template_checkout_command(self.tmpdir@).args);
        let mut r: Vec<Step> = Vec::new();
        r.push(Step::Run(cmd));
        assert(steps_view(r@) =~= seq![StepView::Run(template_checkout_command(self.tmpdir@))]);
        r
    }

    /// Where the checked-out manifest template is read from.
    pub fn template_path(&self) -> (r: String)
        ensures
            r@ == template_path(self.tmpdir@),
    {
        let dir = join(self.tmpdir.as_str(), "app");
        join(dir.as_str(), "flatpak.yaml")
    }

    /// The steps that render the manifest `template` of the application `id`
    /// on the runtime `runtime` at `ver`, and build the application into
    /// `repo_dir`.
    pub fn build_app(
        &self,
        repo_dir: &str,
        template: &str,
        id: &str,
        runtime: &str,
        _arch: &str,
        ver: &str,
    ) -> (r: Vec<Step>)
        ensures
            steps_view(r@) == app_plan(self.tmpdir@, repo_dir@, template@, id@, runtime@, ver@),
    {
        let dir = join(self.tmpdir.as_str(), "app");
        let manifest = concat_str(id, ".yaml");
        let content = render_app_manifest(template, id, runtime, ver);
        let write = Step::WriteFile { path: join(dir.as_str(), manifest.as_str()), contents: content };
        let cmd = Invocation::new("flatpak-builder").arg("--repo").arg(repo_dir).arg("build").arg(
            manifest.as_str(),
        ).current_dir(dir.as_str());
        assert(cmd@.args =~= bundler_command(self.tmpdir@, repo_dir@, id@).args);
        let mut r: Vec<Step> = Vec::new();
        r.push(write);
        r.push(Step::Run(cmd));
        assert(steps_view(r@) =~= app_plan(self.tmpdir@, repo_dir@, template@, id@, runtime@, ver@));
        r
    }
}

} // verus!

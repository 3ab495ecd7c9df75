//! Installing an application from a registry image: the image's labels name
//! the runtime and the application, which are built, published and
//! installed in turn.
use vstd::prelude::*;
use crate::exec::{flatpak, lemma_steps_view_concat, steps_view, InvocationView, Step, StepView};
use crate::flatpak::{
    app_plan, ensure_repo, ensure_repo_plan, init_command, runtime_plan,
    template_checkout_command, Builder,
};
use crate::oci::{api::layer_digests, label_of, Config, Manifest};
use crate::text::{concat_str, join, join_path, replace_all, replace_text, split_at_last, split_last};

verus! {

/// The system-wide publish repository.
pub const FS_REPO_GLOBAL: &'static str = "/var/lib/flatpak-oci-tools/repo";

/// The per-user publish repository, under the home directory.
pub const FS_REPO_USER: &'static str = ".local/share/flatpak-oci-tools/repo";

/// The label that names the application.
pub const APPNAME_LABEL: &'static str = "org.opensuse.flatpak.appname";

/// The label that gives the version.
pub const VERSION_LABEL: &'static str = "org.opencontainers.image.version";

/// What the install subcommand is given.
#[derive(Debug, Clone, PartialEq, Eq)]
pub struct Args {
    pub registry: String,
    pub project: String,
    pub repo: String,
    pub container: String,
}

/// The publish repository for a per-user (`is_user`) or system-wide
/// installation, for the home directory `home`.
pub open spec fn repo_path(is_user: bool, home: Seq<char>) -> Seq<char> {
    if is_user {
        join_path(home, FS_REPO_USER@)
    } else {
        FS_REPO_GLOBAL@
    }
}

/// The name of the remote for the publish repository.
pub open spec fn repo_name(is_user: bool) -> Seq<char> {
    if is_user {
        "oci-tools-user"@
    } else {
        "oci-tools"@
    }
}

/// The publish repository for a per-user (`is_user`) or system-wide
/// installation, for the home directory `home`.
pub fn get_repo_path(is_user: bool, home: &str) -> (r: String)
    ensures
        r@ == repo_path(is_user, home@),
{
    if is_user {
        join(home, FS_REPO_USER)
    } else {
        String::from_str(FS_REPO_GLOBAL)
    }
}

/// The name of the remote for the publish repository.
pub fn get_repo_name(is_user: bool) -> (r: String)
    ensures
        r@ == repo_name(is_user),
{
    if is_user {
        String::from_str("oci-tools-user")
    } else {
        String::from_str("oci-tools")
    }
}

/// A container reference split into image name and tag, the tag being
/// `latest` where none is given.
pub open spec fn split_reference(container: Seq<char>) -> (Seq<char>, Seq<char>) {
    match split_at_last(container, ':') {
        Some(p) => p,
        None => (container, "latest"@),
    }
}

/// The repository path of `container` in the registry project `project`
/// (whose `:` separators become `/`) under `repo`.
pub open spec fn container_path(project: Seq<char>, repo: Seq<char>, container: Seq<char>) -> Seq<
    char,
> {
    replace_all(project, ":"@, "/"@) + "/"@ + repo + "/"@ + container
}

/// A container reference split into image name and tag.
pub fn split_container(container: &str) -> (r: (String, String))
    ensures
        (r.0@, r.1@) == split_reference(container@),
{
    match split_last(container, ':') {
        Some(p) => p,
        None => (String::from_str(container), String::from_str("latest")),
    }
}

/// The repository path of `container` in `project` under `repo`.
pub fn container_name(project: &str, repo: &str, container: &str) -> (r: String)
    ensures
        r@ == container_path(project@, repo@, container@),
{
    proof {
        reveal_strlit(":");
    }
    let mut r = replace_text(project, ":", "/");
    r.append("/");
    r.append(repo);
    r.append("/");
    r.append(container);
    r
}

/// The repository path and tag of the image `container` in `project`
/// under `repo`.
pub fn image_of(project: &str, repo: &str, container: &str) -> (r: (String, String))
    ensures
        r.0@ == container_path(project@, repo@, split_reference(container@).0),
        r.1@ == split_reference(container@).1,
{
    let (name, tag) = split_container(container);
    (container_name(project, repo, name.as_str()), tag)
}

impl Args {
    /// The repository path and tag of the image to install.
    pub fn image(&self) -> (r: (String, String))
        ensures
            r.0@ == container_path(
                self.project@,
                self.repo@,
                split_reference(self.container@).0,
            ),
            r.1@ == split_reference(self.container@).1,
    {
        image_of(self.project.as_str(), self.repo.as_str(), self.container.as_str())
    }
}

/// The runtime and application that an image describes.
#[derive(Debug, Clone, PartialEq, Eq)]
pub struct InstallTarget {
    pub runtime_id: String,
    pub app_id: String,
    pub arch: String,
    pub version: String,
}

/// A target as plain values.
pub struct TargetView {
    pub runtime_id: Seq<char>,
    pub app_id: Seq<char>,
    pub arch: Seq<char>,
    pub version: Seq<char>,
}

impl View for InstallTarget {
    type V = TargetView;

    open spec fn view(&self) -> TargetView {
        TargetView {
            runtime_id: self.runtime_id@,
            app_id: self.app_id@,
            arch: self.arch@,
            version: self.version@,
        }
    }
}

/// Why an image cannot be installed.
#[derive(Debug, Clone, PartialEq, Eq)]
pub enum InstallError {
    /// The image lacks the label of this name.
    MissingLabel(String),
    /// The image is built for this architecture, which has no mapping.
    UnsupportedArchitecture(String),
}

/// An install error as plain values.
pub enum InstallErrorView {
    MissingLabel(Seq<char>),
    UnsupportedArchitecture(Seq<char>),
}

impl View for InstallError {
    type V = InstallErrorView;

    open spec fn view(&self) -> InstallErrorView {
        match self {
            InstallError::MissingLabel(k) => InstallErrorView::MissingLabel(k@),
            InstallError::UnsupportedArchitecture(a) => InstallErrorView::UnsupportedArchitecture(
                a@,
            ),
        }
    }
}

impl InstallError {
    /// The error as told to the user.
    pub fn message(&self) -> (r: String)
        ensures
            r@ == match self@ {
                InstallErrorView::MissingLabel(k) => "Missing label: "@ + k,
                InstallErrorView::UnsupportedArchitecture(a) => "Unsupported architecture: "@ + a,
            },
    {
        match self {
            InstallError::MissingLabel(k) => concat_str("Missing label: ", k.as_str()),
            InstallError::UnsupportedArchitecture(a) => concat_str(
                "Unsupported architecture: ",
                a.as_str(),
            ),
        }
    }
}

/// The Flatpak architecture for an image architecture: only `amd64` has one.
pub open spec fn flatpak_arch(image_arch: Seq<char>) -> Option<Seq<char>> {
    if image_arch == "amd64"@ {
        Some("x86_64"@)
    } else {
        None
    }
}

/// The target that an image with these labels, built for `image_arch`,
/// describes; labels and architecture are checked in that order.
pub open spec fn target_of(labels: Seq<(Seq<char>, Seq<char>)>, image_arch: Seq<char>) -> Result<
    TargetView,
    InstallErrorView,
> {
    match label_of(labels, APPNAME_LABEL@) {
        None => Err(InstallErrorView::MissingLabel(APPNAME_LABEL@)),
        Some(name) => match flatpak_arch(image_arch) {
            None => Err(InstallErrorView::UnsupportedArchitecture(image_arch)),
            Some(arch) => match label_of(labels, VERSION_LABEL@) {
                None => Err(InstallErrorView::MissingLabel(VERSION_LABEL@)),
                Some(version) => Ok(
                    TargetView {
                        runtime_id: "org.openSUSE.Platform."@ + name,
                        app_id: "org.openSUSE.App."@ + name,
                        arch,
                        version,
                    },
                ),
            },
        },
    }
}

/// A target or an error as plain values.
pub open spec fn target_result_view(r: Result<InstallTarget, InstallError>) -> Result<
    TargetView,
    InstallErrorView,
> {
    match r {
        Ok(t) => Ok(t@),
        Err(e) => Err(e@),
    }
}

/// The Flatpak architecture for an image architecture.
pub fn map_architecture(image_arch: &str) -> (r: Option<String>)
    ensures
        crate::exec::opt_text(r) == flatpak_arch(image_arch@),
{
    if crate::text::same_text(image_arch, "amd64") {
        Some(String::from_str("x86_64"))
    } else {
        None
    }
}

/// The runtime and application that the image configuration `config`
/// describes, or why it describes none.
pub fn install_target(config: &Config) -> (r: Result<InstallTarget, InstallError>)
    ensures
        target_result_view(r) == target_of(
            config.config.view_labels(),
            config.architecture@,
        ),
{
    let name = match config.config.label(APPNAME_LABEL) {
        Some(n) => n,
        None => {
            return Err(InstallError::MissingLabel(String::from_str(APPNAME_LABEL)));
        },
    };
    let arch = match map_architecture(config.architecture.as_str()) {
        Some(a) => a,
        None => {
            return Err(InstallError::UnsupportedArchitecture(config.architecture.clone()));
        },
    };
    let version = match config.config.label(VERSION_LABEL) {
        Some(v) => v,
        None => {
            return Err(InstallError::MissingLabel(String::from_str(VERSION_LABEL)));
        },
    };
    Ok(
        InstallTarget {
            runtime_id: concat_str("org.openSUSE.Platform.", name.as_str()),
            app_id: concat_str("org.openSUSE.App.", name.as_str()),
            arch,
            version,
        },
    )
}

/// What an install fetches and builds, decided before anything is fetched.
#[derive(Debug, Clone, PartialEq, Eq)]
pub struct InstallPlan {
    pub target: InstallTarget,
    /// The digests of the layers to pull, in overlay order.
    pub layers: Vec<String>,
}

/// The install of the image with manifest `manifest` and configuration
/// `config`: the target, and the layers to pull. Where the configuration
/// names no installable target there is no plan, so no layer is pulled.
pub fn plan_install(manifest: &Manifest, config: &Config) -> (r: Result<InstallPlan, InstallError>)
    ensures
        match r {
            Ok(p) => {
                &&& target_of(config.config.view_labels(), config.architecture@) == Ok::<
                    TargetView,
                    InstallErrorView,
                >(p.target@)
                &&& crate::exec::texts(p.layers@) == layer_digests(manifest.layers@)
            },
            Err(e) => target_of(config.config.view_labels(), config.architecture@) == Err::<
                TargetView,
                InstallErrorView,
            >(e@),
        },
{
    let target = install_target(config)?;
    Ok(InstallPlan { target, layers: manifest.layer_digests() })
}

/// An image without the application-name label is refused, whatever else
/// it holds, before any layer is pulled.
pub proof fn lemma_missing_appname_refused(labels: Seq<(Seq<char>, Seq<char>)>, image_arch: Seq<char>)
    requires
        label_of(labels, APPNAME_LABEL@) is None,
    ensures
        target_of(labels, image_arch) == Err::<TargetView, InstallErrorView>(
            InstallErrorView::MissingLabel(APPNAME_LABEL@),
        ),
{
}

/// An image with an application name, built for an architecture other
/// than `amd64`, is refused with that architecture named, so no build step
/// is ever planned for it.
pub proof fn lemma_unsupported_architecture_refused(
    labels: Seq<(Seq<char>, Seq<char>)>,
    image_arch: Seq<char>,
)
    requires
        label_of(labels, APPNAME_LABEL@) is Some,
        image_arch != "amd64"@,
    ensures
        target_of(labels, image_arch) == Err::<TargetView, InstallErrorView>(
            InstallErrorView::UnsupportedArchitecture(image_arch),
        ),
{
}

/// The `--user` flag where the per-user installation is meant.
pub open spec fn user_flag(is_user: bool) -> Seq<Seq<char>> {
    if is_user {
        seq!["--user"@]
    } else {
        seq![]
    }
}

/// Registration of the publish repository `path` as the remote `name`.
pub open spec fn remote_add_command(is_user: bool, name: Seq<char>, path: Seq<char>) -> InvocationView {
    InvocationView {
        program: "flatpak"@,
        args: user_flag(is_user) + seq![
            "remote-add"@,
            "--if-not-exists"@,
            "--no-gpg-verify"@,
            name,
            path,
        ],
        cwd: None,
    }
}

/// Installation of `reference` from the remote `name`.
pub open spec fn install_command(is_user: bool, name: Seq<char>, reference: Seq<char>) -> InvocationView {
    InvocationView {
        program: "flatpak"@,
        args: user_flag(is_user) + seq!["install"@, "--assumeyes"@, name, reference],
        cwd: None,
    }
}

/// The reference of the target's runtime.
pub open spec fn runtime_ref(t: TargetView) -> Seq<char> {
    crate::flatpak::runtime_branch(t.runtime_id, t.arch, t.version)
}

/// The reference of the target's application.
pub open spec fn app_ref(t: TargetView) -> Seq<char> {
    "app/"@ + t.app_id + "/"@ + t.arch + "/master"@
}

/// The steps from pulled layers to an installed runtime, ending with the
/// checkout of the application's manifest template.
pub open spec fn runtime_install_plan(
    tmpdir: Seq<char>,
    is_user: bool,
    home: Seq<char>,
    repo_exists: bool,
    layers: Seq<Seq<char>>,
    t: TargetView,
) -> Seq<StepView> {
    let repo = repo_path(is_user, home);
    ensure_repo_plan(repo, repo_exists) + seq![StepView::Run(init_command(tmpdir))] + runtime_plan(
        tmpdir,
        repo,
        layers,
        t.runtime_id,
        t.arch,
        t.version,
    ) + seq![
        StepView::Run(remote_add_command(is_user, repo_name(is_user), repo)),
        StepView::Run(install_command(is_user, repo_name(is_user), runtime_ref(t))),
        StepView::Run(template_checkout_command(tmpdir)),
    ]
}

/// The steps from the manifest template to an installed application.
pub open spec fn app_install_plan(
    tmpdir: Seq<char>,
    is_user: bool,
    home: Seq<char>,
    template: Seq<char>,
    t: TargetView,
) -> Seq<StepView> {
    app_plan(tmpdir, repo_path(is_user, home), template, t.app_id, t.runtime_id, t.version)
        + seq![StepView::Run(install_command(is_user, repo_name(is_user), app_ref(t)))]
}

fn install_ref(is_user: bool, reference: &str) -> (r: Step)
    ensures
        r@ == StepView::Run(install_command(is_user, repo_name(is_user), reference@)),
{
    let name = get_repo_name(is_user);
    let cmd = flatpak(is_user).arg("install").arg("--assumeyes").arg_string(name).arg(reference);
    assert(cmd@.args =~= install_command(is_user, repo_name(is_user), reference@).args);
    Step::Run(cmd)
}

/// The steps from the layer archives at `layer_paths` to the installed
/// runtime of `target`, for a per-user (`is_user`) or system-wide
/// installation, given whether the publish repository exists; they end
/// with the checkout of the application's manifest template.
pub fn runtime_steps(
    builder: &Builder,
    is_user: bool,
    home: &str,
    repo_exists: bool,
    layer_paths: &Vec<String>,
    target: &InstallTarget,
) -> (r: Vec<Step>)
    ensures
        steps_view(r@) == runtime_install_plan(
            builder.tmpdir@,
            is_user,
            home@,
            repo_exists,
            crate::exec::texts(layer_paths@),
            target@,
        ),
{
    let repo = get_repo_path(is_user, home);
    let mut r = ensure_repo(repo.as_str(), repo_exists);
    let mut init = builder.init_steps();
    proof {
        lemma_steps_view_concat(r@, init@);
    }
    r.append(&mut init);
    let mut build = builder.build_runtime(
        repo.as_str(),
        layer_paths,
        target.runtime_id.as_str(),
        target.arch.as_str(),
        target.version.as_str(),
    );
    proof {
        lemma_steps_view_concat(r@, build@);
    }
    r.append(&mut build);
    let name = get_repo_name(is_user);
    let add = flatpak(is_user).arg("remote-add").arg("--if-not-exists").arg(
        "--no-gpg-verify",
    ).arg_string(name).arg(repo.as_str());
    assert(add@.args =~= remote_add_command(is_user, repo_name(is_user), repo@).args);
    r.push(Step::Run(add));
    let reference = crate::flatpak::format_runtime_branch(
        target.runtime_id.as_str(),
        target.arch.as_str(),
        target.version.as_str(),
    );
    r.push(install_ref(is_user, reference.as_str()));
    let mut checkout = builder.template_checkout_steps();
    proof {
        lemma_steps_view_concat(r@, checkout@);
    }
    r.append(&mut checkout);
    assert(steps_view(r@) =~= runtime_install_plan(
        builder.tmpdir@,
        is_user,
        home@,
        repo_exists,
        crate::exec::texts(layer_paths@),
        target@,
    ));
    r
}

/// The steps from the manifest `template` to the installed application of
/// `target`, for a per-user (`is_user`) or system-wide installation.
pub fn app_steps(
    builder: &Builder,
    is_user: bool,
    home: &str,
    template: &str,
    target: &InstallTarget,
) -> (r: Vec<Step>)
    ensures
        steps_view(r@) == app_install_plan(builder.tmpdir@, is_user, home@, template@, target@),
{
    let repo = get_repo_path(is_user, home);
    let mut r = builder.build_app(
        repo.as_str(),
        template,
        target.app_id.as_str(),
        target.runtime_id.as_str(),
        target.arch.as_str(),
        target.version.as_str(),
    );
    let mut reference = concat_str("app/", target.app_id.as_str());
    reference.append("/");
    reference.append(target.arch.as_str());
    reference.append("/master");
    r.push(install_ref(is_user, reference.as_str()));
    assert(steps_view(r@) =~= app_install_plan(builder.tmpdir@, is_user, home@, template@, target@));
    r
}

} // verus!

use flatpak_oci_tools::commands::install::{
    app_steps, container_name, get_repo_name, get_repo_path, install_target, plan_install,
    runtime_steps, split_container, Args, InstallError, InstallTarget,
};
use flatpak_oci_tools::exec::{Invocation, Step, ToolFailure};
use flatpak_oci_tools::flatpak::Builder;
use flatpak_oci_tools::oci::{Blob, Config, ConfigField, Manifest};

fn config(labels: &[(&str, &str)], arch: &str) -> Config {
    Config {
        author: "someone".to_string(),
        architecture: arch.to_string(),
        os: "linux".to_string(),
        config: ConfigField {
            labels: labels.iter().map(|(k, v)| (k.to_string(), v.to_string())).collect(),
        },
    }
}

fn blob(digest: &str) -> Blob {
    Blob {
        media_type: "application/vnd.oci.image.layer.v1.tar+gzip".to_string(),
        size: 1,
        digest: digest.to_string(),
    }
}

fn manifest() -> Manifest {
    Manifest {
        schema_version: 2,
        media_type: "application/vnd.oci.image.manifest.v1+json".to_string(),
        config: blob("sha256:cfg"),
        layers: vec![blob("sha256:l1"), blob("sha256:l2")],
    }
}

fn run(program: &str, args: &[&str], cwd: Option<&str>) -> Step {
    Step::Run(Invocation {
        program: program.to_string(),
        args: args.iter().map(|a| a.to_string()).collect(),
        cwd: cwd.map(|c| c.to_string()),
    })
}

const APPNAME: &str = "org.opensuse.flatpak.appname";
const VERSION: &str = "org.opencontainers.image.version";

#[test]
fn missing_appname_fails_before_pull() {
    let cfg = config(&[(VERSION, "3")], "amd64");
    let err = InstallError::MissingLabel(APPNAME.to_string());
    assert_eq!(install_target(&cfg), Err(err.clone()));
    assert_eq!(plan_install(&manifest(), &cfg), Err(err.clone()));
    assert_eq!(err.message(), "Missing label: org.opensuse.flatpak.appname");
}

#[test]
fn missing_version_label() {
    let cfg = config(&[(APPNAME, "Foo")], "amd64");
    assert_eq!(install_target(&cfg), Err(InstallError::MissingLabel(VERSION.to_string())));
}

#[test]
fn unsupported_architecture_fails_fast() {
    let cfg = config(&[(APPNAME, "Foo"), (VERSION, "3")], "arm64");
    let err = InstallError::UnsupportedArchitecture("arm64".to_string());
    assert_eq!(plan_install(&manifest(), &cfg), Err(err.clone()));
    assert_eq!(err.message(), "Unsupported architecture: arm64");
}

#[test]
fn two_layer_image_end_to_end() {
    let cfg = config(&[(APPNAME, "Foo"), (VERSION, "3")], "amd64");
    let plan = plan_install(&manifest(), &cfg).unwrap();
    assert_eq!(
        plan.target,
        InstallTarget {
            runtime_id: "org.openSUSE.Platform.Foo".to_string(),
            app_id: "org.openSUSE.App.Foo".to_string(),
            arch: "x86_64".to_string(),
            version: "3".to_string(),
        }
    );
    assert_eq!(plan.layers, vec!["sha256:l1".to_string(), "sha256:l2".to_string()]);

    let builder = Builder::new("/var/tmp/b");
    let layers = vec!["/cache/sha256:l1".to_string(), "/cache/sha256:l2".to_string()];
    let steps = runtime_steps(&builder, false, "/home/u", true, &layers, &plan.target);
    let repo = "/var/lib/flatpak-oci-tools/repo";
    assert!(steps.contains(&run(
        "ostree",
        &["pull-local", "--repo", repo, "/var/tmp/b/repo", "runtime/org.openSUSE.Platform.Foo/x86_64/3"],
        Some("/var/tmp/b"),
    )));
    assert!(steps.contains(&run("flatpak", &["build-update-repo", repo], Some("/var/tmp/b"))));
    assert!(steps.contains(&run(
        "flatpak",
        &["remote-add", "--if-not-exists", "--no-gpg-verify", "oci-tools", repo],
        None,
    )));
    assert!(steps.contains(&run(
        "flatpak",
        &["install", "--assumeyes", "oci-tools", "runtime/org.openSUSE.Platform.Foo/x86_64/3"],
        None,
    )));
    assert_eq!(steps.len(), 1 + 7 + 3);

    let app = app_steps(&builder, false, "/home/u", "id: %FLATPAK_OCI_APPID%\n", &plan.target);
    assert_eq!(
        app,
        vec![
            Step::WriteFile {
                path: "/var/tmp/b/app/org.openSUSE.App.Foo.yaml".to_string(),
                contents: "id: org.openSUSE.App.Foo\n".to_string(),
            },
            run(
                "flatpak-builder",
                &["--repo", repo, "build", "org.openSUSE.App.Foo.yaml"],
                Some("/var/tmp/b/app"),
            ),
            run(
                "flatpak",
                &["install", "--assumeyes", "oci-tools", "app/org.openSUSE.App.Foo/x86_64/master"],
                None,
            ),
        ]
    );
}

#[test]
fn per_user_install_uses_user_repo() {
    assert_eq!(get_repo_path(true, "/home/u"), "/home/u/.local/share/flatpak-oci-tools/repo");
    assert_eq!(get_repo_path(false, "/home/u"), "/var/lib/flatpak-oci-tools/repo");
    assert_eq!(get_repo_name(true), "oci-tools-user");
    assert_eq!(get_repo_name(false), "oci-tools");
    let target = InstallTarget {
        runtime_id: "r".to_string(),
        app_id: "a".to_string(),
        arch: "x86_64".to_string(),
        version: "1".to_string(),
    };
    let steps = runtime_steps(&Builder::new("/t"), true, "/home/u", false, &vec![], &target);
    assert_eq!(steps[0], Step::CreateDirAll("/home/u/.local/share/flatpak-oci-tools/repo".to_string()));
    assert!(steps.contains(&run(
        "flatpak",
        &["--user", "install", "--assumeyes", "oci-tools-user", "runtime/r/x86_64/1"],
        None,
    )));
}

#[test]
fn container_reference_and_name() {
    assert_eq!(split_container("foo:1.0"), ("foo".to_string(), "1.0".to_string()));
    assert_eq!(split_container("foo"), ("foo".to_string(), "latest".to_string()));
    assert_eq!(
        container_name("home:yudaike:flatpak-oci-container", "images", "foo"),
        "home/yudaike/flatpak-oci-container/images/foo"
    );
    let args = Args {
        registry: "https://registry.opensuse.org".to_string(),
        project: "home:me".to_string(),
        repo: "images".to_string(),
        container: "app:2".to_string(),
    };
    assert_eq!(args.image(), ("home/me/images/app".to_string(), "2".to_string()));
}

#[test]
fn tool_failure_messages() {
    let spawn = ToolFailure::Spawn { program: "ostree".to_string(), cause: "not found".to_string() };
    assert_eq!(spawn.message(), "Failed to spawn command ostree: not found");
    let exit = ToolFailure::Exit { program: "ostree".to_string(), status: "exit status: 1".to_string() };
    assert_eq!(exit.message(), "Command ostree exited with status exit status: 1");
}

use flatpak_oci_tools::exec::{join_args, ostree, Invocation, Step};
use flatpak_oci_tools::flatpak::runtime_builder;
use flatpak_oci_tools::flatpak::{
    ensure_repo, format_runtime_branch, format_runtime_metadata, render_app_manifest, Builder,
};

fn run(program: &str, args: &[&str], cwd: Option<&str>) -> Step {
    Step::Run(Invocation {
        program: program.to_string(),
        args: args.iter().map(|a| a.to_string()).collect(),
        cwd: cwd.map(|c| c.to_string()),
    })
}

#[test]
fn runtime_metadata_text() {
    assert_eq!(
        format_runtime_metadata("org.x.Foo", "x86_64", "3"),
        "[Runtime]\nname=org.x.Foo\narch=x86_64\nversion=3"
    );
    assert_eq!(format_runtime_branch("org.x.Foo", "x86_64", "3"), "runtime/org.x.Foo/x86_64/3");
}

#[test]
fn runtime_plan_is_the_pipeline() {
    let b = Builder::new("/w");
    let layers = vec!["/c/a.tar".to_string(), "/c/b.tar".to_string()];
    let steps = b.build_runtime("/pub", &layers, "rt", "x86_64", "1");
    let md = "[Runtime]\nname=rt\narch=x86_64\nversion=1";
    let annotation = format!("xa.metadata={}", md);
    let expected = vec![
        run(
            "ostree",
            &["commit", "--repo", "/w/repo", "-b", "base", "--tree=tar=/c/a.tar", "--tree=tar=/c/b.tar"],
            Some("/w"),
        ),
        Step::CreateDirAll("/w/subtree".to_string()),
        run(
            "ostree",
            &["checkout", "--repo", "/w/repo", "--subpath", "/usr", "-U", "base", "/w/subtree/files"],
            Some("/w"),
        ),
        Step::WriteFile { path: "/w/subtree/metadata".to_string(), contents: md.to_string() },
        run(
            "ostree",
            &[
                "commit",
                "--repo",
                "/w/repo",
                "--no-xattrs",
                "--owner-uid=0",
                "--owner-gid=0",
                "--link-checkout-speedup",
                "-s",
                "Commit",
                "--branch",
                "runtime/rt/x86_64/1",
                "/w/subtree",
                "--add-metadata-string",
                annotation.as_str(),
            ],
            Some("/w"),
        ),
        run("ostree", &["pull-local", "--repo", "/pub", "/w/repo", "runtime/rt/x86_64/1"], Some("/w")),
        run("flatpak", &["build-update-repo", "/pub"], Some("/w")),
    ];
    assert_eq!(steps, expected);
}

#[test]
fn rerun_gives_identical_metadata() {
    let layers = vec!["/c/a.tar".to_string()];
    let first = Builder::new("/tmp/one").build_runtime("/pub", &layers, "rt", "x86_64", "2");
    let second = Builder::new("/tmp/two").build_runtime("/pub", &layers, "rt", "x86_64", "2");
    let written = |steps: &Vec<Step>| match &steps[3] {
        Step::WriteFile { contents, .. } => contents.clone(),
        other => panic!("unexpected step {:?}", other),
    };
    let annotated = |steps: &Vec<Step>| match &steps[4] {
        Step::Run(c) => c.args.last().unwrap().clone(),
        other => panic!("unexpected step {:?}", other),
    };
    assert_eq!(written(&first), written(&second));
    assert_eq!(annotated(&first), annotated(&second));
    assert_eq!(annotated(&first), format!("xa.metadata={}", written(&first)));
}

#[test]
fn base_commit_keeps_manifest_order() {
    let layers = vec!["/c/A".to_string(), "/c/B".to_string()];
    let steps = Builder::new("/w").build_runtime("/pub", &layers, "rt", "x86_64", "1");
    match &steps[0] {
        Step::Run(c) => {
            assert_eq!(&c.args[5..], &["--tree=tar=/c/A".to_string(), "--tree=tar=/c/B".to_string()]);
        }
        other => panic!("unexpected step {:?}", other),
    }
    let reversed = vec!["/c/B".to_string(), "/c/A".to_string()];
    let other = Builder::new("/w").build_runtime("/pub", &reversed, "rt", "x86_64", "1");
    assert_ne!(steps[0], other[0]);
}

#[test]
fn init_and_template_checkout() {
    let b = Builder::new("/w");
    assert_eq!(b.tmp_repo(), "/w/repo");
    assert_eq!(
        b.init_steps(),
        vec![run("ostree", &["init", "--mode=bare-user-only", "--repo", "/w/repo"], Some("/w"))]
    );
    assert_eq!(
        b.template_checkout_steps(),
        vec![run(
            "ostree",
            &["checkout", "--repo", "/w/repo", "--subpath=/flatpak.yaml", "-U", "base", "/w/app"],
            None
        )]
    );
    assert_eq!(b.template_path(), "/w/app/flatpak.yaml");
}

#[test]
fn manifest_template_substitution() {
    let template = "app-id: %FLATPAK_OCI_APPID%\nruntime: %FLATPAK_OCI_RUNTIMEID%\nruntime-version: '%FLATPAK_OCI_RUNTIMEVER%'\n";
    let out = render_app_manifest(template, "org.openSUSE.App.Foo", "org.openSUSE.Platform.Foo", "3");
    assert_eq!(
        out,
        "app-id: org.openSUSE.App.Foo\nruntime: org.openSUSE.Platform.Foo\nruntime-version: '3'\n"
    );
    assert!(!out.contains("%FLATPAK_OCI_"));
}

#[test]
fn manifest_template_without_placeholders_is_unchanged() {
    let template = "app-id: fixed\n";
    assert_eq!(render_app_manifest(template, "a", "b", "c"), template);
}

#[test]
fn app_build_steps() {
    let b = Builder::new("/w");
    let steps = b.build_app("/pub", "id: %FLATPAK_OCI_APPID%", "org.App", "org.Rt", "x86_64", "3");
    assert_eq!(
        steps,
        vec![
            Step::WriteFile { path: "/w/app/org.App.yaml".to_string(), contents: "id: org.App".to_string() },
            run("flatpak-builder", &["--repo", "/pub", "build", "org.App.yaml"], Some("/w/app")),
        ]
    );
}

#[test]
fn ensure_repo_only_when_missing() {
    assert_eq!(ensure_repo("/pub", true), vec![]);
    assert_eq!(
        ensure_repo("/pub", false),
        vec![
            Step::CreateDirAll("/pub".to_string()),
            run("ostree", &["init", "--repo", "/pub", "--mode=archive-z2"], None),
        ]
    );
    assert_eq!(runtime_builder::ensure_repo("/pub", true), vec![]);
    assert_eq!(
        runtime_builder::ensure_repo("/pub", false),
        vec![run("ostree", &["init", "--repo", "/pub", "--mode=archive-z2"], None)]
    );
}

#[test]
fn command_line_for_diagnostics() {
    let cmd = ostree().arg("init").arg("--repo").arg("/r");
    assert_eq!(join_args(&cmd, " "), "ostree init --repo /r");
    assert_eq!(join_args(&Invocation::new("ls"), " "), "ls");
}

#[test]
fn standalone_runtime_build_starts_with_store_init() {
    let layers = vec!["/c/a.tar".to_string()];
    let steps = runtime_builder::run("/w", "/pub", &layers, "rt", "x86_64", "1");
    let builder = Builder::new("/w");
    let mut expected = builder.init_steps();
    expected.extend(builder.build_runtime("/pub", &layers, "rt", "x86_64", "1"));
    assert_eq!(steps, expected);
    assert_eq!(steps.len(), 8);
}

#[test]
fn placeholder_formed_across_placeholders_is_replaced_first() {
    // The application-id placeholder here is formed by the closing `%` of
    // one placeholder, literal text, and the opening `%` of the next.
    let template = "%FLATPAK_OCI_RUNTIMEID%FLATPAK_OCI_APPID%FLATPAK_OCI_RUNTIMEVER%";
    assert_eq!(
        render_app_manifest(template, "A", "R", "V"),
        "%FLATPAK_OCI_RUNTIMEIDAFLATPAK_OCI_RUNTIMEVER%"
    );
}

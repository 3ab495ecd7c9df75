use flatpak_oci_tools::commands::import_container::{import_steps, Args};
use flatpak_oci_tools::exec::{Invocation, Step};

fn run(program: &str, args: &[&str], cwd: Option<&str>) -> Step {
    Step::Run(Invocation {
        program: program.to_string(),
        args: args.iter().map(|a| a.to_string()).collect(),
        cwd: cwd.map(|c| c.to_string()),
    })
}

#[test]
fn import_plan_steps() {
    let args = Args {
        id: "org.openSUSE.OCIPlatform".to_string(),
        arch: "x86_64".to_string(),
        version: "1".to_string(),
        image_file: "img.tar".to_string(),
        repo: "/srv/repo".to_string(),
    };
    let steps = import_steps(&args, "/w", "/w/sub");
    let md = "[Runtime]\nname=org.openSUSE.OCIPlatform\narch=x86_64\nversion=1";
    let annotation = format!("xa.metadata={}", md);
    let base = "base/org.openSUSE.OCIPlatform/x86_64/1";
    let branch = "runtime/org.openSUSE.OCIPlatform/x86_64/1";
    assert_eq!(
        steps,
        vec![
            run("ostree", &["init", "--mode=bare-user-only", "--repo", "/w/repo"], None),
            Step::CreateDirAll("/w/build/usr/share/fonts".to_string()),
            Step::Symlink {
                target: "/run/host/fonts".to_string(),
                link: "/w/build/usr/share/fonts/flatpakhostfonts".to_string(),
            },
            run("cp", &["-r", "etc", "usr/etc"], Some("/w/build")),
            run("ostree", &["commit", "--repo", "/w/repo", "-b", base, "--tree=dir=/w/build"], None),
            run(
                "ostree",
                &["checkout", "--repo", "/w/repo", "--subpath", "/usr", "-U", base, "/w/sub/files"],
                None,
            ),
            Step::WriteFile { path: "/w/sub/metadata".to_string(), contents: md.to_string() },
            run(
                "ostree",
                &[
                    "commit",
                    "--repo",
                    "/w/repo",
                    "--no-xattrs",
                    "--owner-uid=0",
                    "--owner-gid=0",
                    "--link-checkout-speedup",
                    "-s",
                    "Commit",
                    "--branch",
                    branch,
                    "/w/sub",
                    "--add-metadata-string",
                    annotation.as_str(),
                ],
                None,
            ),
            run("ostree", &["pull-local", "--repo", "/srv/repo", "/w/repo", branch], None),
            run("flatpak", &["build-update-repo", "/srv/repo"], None),
        ]
    );
}

use browsers::xtask::package::{linux, macos, run, windows, CommandArg, PackageStep, Platform};

fn texts(args: &[CommandArg]) -> Vec<String> {
    args.iter()
        .map(|a| match a {
            CommandArg::Text(t) => t.clone(),
            CommandArg::Path(p) => format!("<{p}>"),
            CommandArg::TextWithPath(t, p) => format!("{t}<{p}>"),
        })
        .collect()
}

fn copy_of(step: &PackageStep) -> Option<(&str, &str)> {
    match step {
        PackageStep::Copy { from, to } => Some((from.as_str(), to.as_str())),
        _ => None,
    }
}

#[test]
fn linux_plan_sizes() {
    assert_eq!(linux::package(true).len(), 137);
    assert_eq!(linux::package(false).len(), 140);
    assert_eq!(run(Platform::Linux, true).len(), 137);
}

#[test]
fn linux_plan_compiles_each_architecture_first() {
    let plan = linux::package(false);
    for (i, triple) in ["x86_64-unknown-linux-gnu", "aarch64-unknown-linux-gnu", "armv7-unknown-linux-gnueabihf"]
        .iter()
        .enumerate()
    {
        match &plan[i] {
            PackageStep::Run(c) => {
                assert_eq!(c.program, "cross");
                assert_eq!(texts(&c.args), vec!["build", "--target", triple, "--release"]);
                assert_eq!(c.env, vec![("CROSS_NO_WARNINGS".to_string(), "0".to_string())]);
                assert_eq!(c.dir, "");
            }
            _ => panic!("expected a build at {i}"),
        }
    }
    assert!(matches!(&plan[3], PackageStep::ResetDir(d) if d == linux::RELEASE_DIR));
}

#[test]
fn linux_plan_copies_binaries_and_bundle() {
    let plan = linux::package(true);
    assert_eq!(
        copy_of(&plan[1]),
        Some((
            "target/x86_64-unknown-linux-gnu/release/browsers",
            "target/universal-unknown-linux-gnu/release/x86_64/browsers"
        ))
    );
    assert_eq!(
        copy_of(&plan[6]),
        Some((
            "resources/icons/16x16/software.Browsers.png",
            "target/universal-unknown-linux-gnu/release/resources/icons/16x16/software.Browsers.png"
        ))
    );
}

#[test]
fn linux_plan_archives_the_bundle() {
    let plan = linux::package(true);
    assert!(matches!(&plan[17], PackageStep::RemoveFile(f) if f == "target/universal-unknown-linux-gnu/release/browsers_linux.tar.gz"));
    assert!(matches!(&plan[18], PackageStep::RemoveFile(f) if f == "target/universal-unknown-linux-gnu/release/browsers_linux.tar.gz.sha256"));
    match &plan[19] {
        PackageStep::Run(c) => {
            assert_eq!(c.program, "tar");
            assert_eq!(c.dir, linux::RELEASE_DIR);
            let args = texts(&c.args);
            assert_eq!(args.len(), 18);
            assert_eq!(&args[..3], &["-zcf", "browsers_linux.tar.gz", "x86_64/browsers"]);
            assert_eq!(args[17], "uninstall.sh");
        }
        _ => panic!("expected tar"),
    }
    assert!(matches!(&plan[20], PackageStep::WriteChecksum(f) if f.ends_with("browsers_linux.tar.gz")));
    match &plan[23] {
        PackageStep::Run(c) => assert_eq!(texts(&c.args)[0], "-Jcf"),
        _ => panic!("expected tar"),
    }
    assert!(matches!(&plan[25], PackageStep::ResetDir(d) if d == linux::PACKAGING_DIR));
}

#[test]
fn linux_plan_builds_debian_and_rpm_packages() {
    let plan = linux::package(true);
    assert!(matches!(&plan[26], PackageStep::ResetDir(d) if d == "target/packaging/linux/deb-amd64"));
    match &plan[33] {
        PackageStep::RenderTemplate { source, destination, replacements } => {
            assert_eq!(source, "extra/linux/dist/software.Browsers.template.desktop");
            assert_eq!(destination, "target/packaging/linux/deb-amd64/usr/share/applications/software.Browsers.desktop");
            assert_eq!(replacements, &vec![("€ExecCommand€".to_string(), "/usr/bin/browsers %u".to_string())]);
        }
        _ => panic!("expected the desktop entry"),
    }
    match &plan[40] {
        PackageStep::Symlink { target, link } => {
            assert_eq!(target, "../share/software.Browsers/bin/browsers");
            assert_eq!(link, "target/packaging/linux/deb-amd64/usr/bin/browsers");
        }
        _ => panic!("expected the link"),
    }
    match &plan[42] {
        PackageStep::Run(c) => {
            assert_eq!(c.program, "dpkg-deb");
            assert_eq!(
                texts(&c.args),
                vec![
                    "-Zxz",
                    "--root-owner-group",
                    "--build",
                    "<target/packaging/linux/deb-amd64>",
                    "<target/x86_64-unknown-linux-gnu/release/browsers_amd64.deb>"
                ]
            );
        }
        _ => panic!("expected dpkg-deb"),
    }
    match &plan[59] {
        PackageStep::Run(c) => {
            assert_eq!(c.program, "rpmbuild");
            assert_eq!(
                texts(&c.args),
                vec![
                    "--target",
                    "x86_64-linux",
                    "--define",
                    "_topdir <target/packaging/linux/rpm-x86_64/rpmbuild>",
                    "-bb",
                    "<target/packaging/linux/rpm-x86_64/rpmbuild/SPECS/browsers.spec>"
                ]
            );
        }
        _ => panic!("expected rpmbuild"),
    }
    assert_eq!(
        copy_of(&plan[61]),
        Some((
            "target/x86_64-unknown-linux-gnu/release/browsers_amd64.deb",
            "target/universal-unknown-linux-gnu/release/x86_64/browsers_amd64.deb"
        ))
    );
    assert_eq!(
        copy_of(&plan[136]),
        Some((
            "target/armv7-unknown-linux-gnueabihf/release/browsers.armhfp.rpm",
            "target/universal-unknown-linux-gnu/release/armv7l/browsers.armhfp.rpm"
        ))
    );
}

#[test]
fn macos_plan_builds_a_universal_bundle_and_image() {
    let plan = macos::package(false);
    assert_eq!(plan.len(), 33);
    match &plan[0] {
        PackageStep::Run(c) => {
            assert_eq!(c.program, "cargo");
            assert_eq!(c.env, vec![("MACOSX_DEPLOYMENT_TARGET".to_string(), "10.7".to_string())]);
        }
        _ => panic!("expected cargo"),
    }
    match &plan[3] {
        PackageStep::Run(c) => {
            assert_eq!(c.program, "lipo");
            assert_eq!(texts(&c.args)[2], "<target/universal-apple-darwin/release/Browsers>");
        }
        _ => panic!("expected lipo"),
    }
    assert!(matches!(&plan[4], PackageStep::MakeExecutable(f) if f == "target/universal-apple-darwin/release/Browsers"));
    assert_eq!(
        copy_of(&plan[10]),
        Some(("target/universal-apple-darwin/release/Browsers", "target/universal-apple-darwin/release/Browsers.app/Contents/MacOS/Browsers"))
    );
    assert!(matches!(&plan[16], PackageStep::Symlink { target, link } if target == "/Applications" && link == "target/packaging/macos/Browsers/Applications"));
    assert!(matches!(&plan[21], PackageStep::RunInto(c, out) if c.program == "DeRez" && out == "target/packaging/macos/Browsers/copy_VolumeIcon.rsrc"));
    assert!(matches!(&plan[24], PackageStep::RemoveDir(d) if d == "target/packaging/macos/Browsers"));
    match &plan[27] {
        PackageStep::Run(c) => assert_eq!(texts(&c.args), vec!["-zcf", "browsers_mac.tar.gz", "Browsers.app"]),
        _ => panic!("expected tar"),
    }
    assert_eq!(macos::package(true).len(), 31);
}

#[test]
fn windows_plan_zips_and_archives() {
    let plan = windows::package(true);
    assert_eq!(plan.len(), 26);
    assert_eq!(windows::package(false).len(), 28);
    assert_eq!(
        copy_of(&plan[3]),
        Some(("extra/windows/dist/install.bat", "target/universal-pc-windows-msvc/release/install.bat"))
    );
    assert!(matches!(&plan[16], PackageStep::RemoveFile(f) if f == "target/universal-pc-windows-msvc/release/Browsers_windows.zip"));
    match &plan[17] {
        PackageStep::Run(c) => {
            assert_eq!(c.program, "zip");
            assert_eq!(c.dir, windows::RELEASE_DIR);
            let args = texts(&c.args);
            assert_eq!(args.len(), 16);
            assert_eq!(args[0], "Browsers_windows.zip");
            assert_eq!(args[15], "startmenu/system/Browsers.lnk");
        }
        _ => panic!("expected zip"),
    }
    assert_eq!(run(Platform::Windows, true).len(), 26);
}

fn copied_before(plan: &[PackageStep], path: &str, limit: usize) -> bool {
    plan[..limit].iter().any(|s| matches!(copy_of(s), Some((_, to)) if to == path))
}

#[test]
fn linux_archive_members_are_assembled_first() {
    let plan = linux::package(true);
    for f in linux::archive_files() {
        assert!(copied_before(&plan, &format!("{}/{}", linux::RELEASE_DIR, f), 19), "{f}");
    }
}

#[test]
fn windows_archive_members_are_assembled_first() {
    let plan = windows::package(true);
    for f in windows::archive_files() {
        assert!(copied_before(&plan, &format!("{}/{}", windows::RELEASE_DIR, f), 17), "{f}");
    }
}

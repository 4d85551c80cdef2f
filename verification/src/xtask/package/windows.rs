//! The Windows packaging plan: binaries for two architectures, a bundle
//! with install scripts and Start menu shortcuts, a zip file, and tar
//! archives.

use vstd::prelude::*;
use vstd::string::*;
use crate::xtask::package::{
    copies_to, icon_archive_names, icon_archive_path, append_steps, archive_steps, build_runs, build_steps, create_archive, icon_copies, icon_copy_steps,
    icon_sizes_spec, join, joined, name_views, pair_views, step_views, text_args, text_args_of,
    ArchiveCompression, CommandArg, CommandArgView, PackageCommand, PackageCommandView, PackageStep,
    PackageStepView,
};

verus! {

/// Where the Windows release files are assembled.
pub const RELEASE_DIR: &'static str = "target/universal-pc-windows-msvc/release";

/// The Rust targets built for Windows.
pub open spec fn windows_triples() -> Seq<&'static str> {
    seq!["x86_64-pc-windows-msvc", "aarch64-pc-windows-msvc"]
}

/// The files the Windows archives and zip file hold, relative to the
/// release directory.
pub open spec fn windows_archive_files() -> Seq<&'static str> {
    seq![
        "x86_64/browsers.exe",
        "aarch64/browsers.exe",
        "resources/icons/16x16/software.Browsers.png",
        "resources/icons/32x32/software.Browsers.png",
        "resources/icons/64x64/software.Browsers.png",
        "resources/icons/128x128/software.Browsers.png",
        "resources/icons/256x256/software.Browsers.png",
        "resources/icons/512x512/software.Browsers.png",
        "resources/i18n/en-US/builtin.ftl",
        "resources/repository/application-repository.toml",
        "install.bat",
        "uninstall.bat",
        "announce_default.ps1",
        "startmenu/user/Browsers.lnk",
        "startmenu/system/Browsers.lnk",
    ]
}

/// The files the Windows archives and zip file hold.
pub fn archive_files() -> (r: Vec<&'static str>)
    ensures
        r@ == windows_archive_files(),
{
    let r = vec![
        "x86_64/browsers.exe",
        "aarch64/browsers.exe",
        "resources/icons/16x16/software.Browsers.png",
        "resources/icons/32x32/software.Browsers.png",
        "resources/icons/64x64/software.Browsers.png",
        "resources/icons/128x128/software.Browsers.png",
        "resources/icons/256x256/software.Browsers.png",
        "resources/icons/512x512/software.Browsers.png",
        "resources/i18n/en-US/builtin.ftl",
        "resources/repository/application-repository.toml",
        "install.bat",
        "uninstall.bat",
        "announce_default.ps1",
        "startmenu/user/Browsers.lnk",
        "startmenu/system/Browsers.lnk",
    ];
    assert(r@ =~= windows_archive_files());
    r
}

/// Compiling each architecture with `cargo`.
pub open spec fn compile_steps() -> Seq<PackageStepView> {
    build_runs("cargo"@, windows_triples(), Seq::empty())
}

fn compile() -> (r: Vec<PackageStep>)
    ensures
        step_views(r@) == compile_steps(),
{
    let triples: Vec<&'static str> = vec!["x86_64-pc-windows-msvc", "aarch64-pc-windows-msvc"];
    assert(triples@ =~= windows_triples());
    let env: Vec<(String, String)> = Vec::new();
    assert(pair_views(env@) =~= Seq::<(Seq<char>, Seq<char>)>::empty());
    build_steps("cargo", triples.as_slice(), &env)
}

/// A copy into the release directory.
pub open spec fn release_copy(from: Seq<char>, to: Seq<char>) -> PackageStepView {
    PackageStepView::Copy { from, to: joined(RELEASE_DIR@, to) }
}

fn copy_to_release(from: &str, to: &str) -> (r: PackageStep)
    ensures
        r@ == release_copy(from@, to@),
{
    PackageStep::Copy { from: String::from_str(from), to: join(RELEASE_DIR, to) }
}

/// Emptying the release directory, then copying in both binaries.
pub open spec fn binaries_steps() -> Seq<PackageStepView> {
    seq![
        PackageStepView::ResetDir(RELEASE_DIR@),
        release_copy("target/x86_64-pc-windows-msvc/release/browsers.exe"@, "x86_64/browsers.exe"@),
        release_copy("target/aarch64-pc-windows-msvc/release/browsers.exe"@, "aarch64/browsers.exe"@),
    ]
}

fn assemble_binaries() -> (r: Vec<PackageStep>)
    ensures
        step_views(r@) == binaries_steps(),
{
    let r = vec![
        PackageStep::ResetDir(String::from_str(RELEASE_DIR)),
        copy_to_release("target/x86_64-pc-windows-msvc/release/browsers.exe", "x86_64/browsers.exe"),
        copy_to_release("target/aarch64-pc-windows-msvc/release/browsers.exe", "aarch64/browsers.exe"),
    ];
    assert(step_views(r@) =~= binaries_steps());
    r
}

/// The install scripts copied from `extra/windows/dist`.
pub open spec fn script_names() -> Seq<&'static str> {
    seq!["install.bat", "announce_default.ps1", "uninstall.bat"]
}

/// Copies of scripts from `extra/windows/dist` into the release directory.
pub open spec fn script_copies(names: Seq<&'static str>) -> Seq<PackageStepView>
    decreases names.len(),
{
    if names.len() == 0 {
        Seq::empty()
    } else {
        script_copies(names.drop_last()).push(release_copy(
            joined("extra/windows/dist"@, names.last()@),
            names.last()@,
        ))
    }
}

/// The install scripts, icons, translations, application repository and
/// Start menu shortcuts copied into the release directory.
pub open spec fn bundle_steps() -> Seq<PackageStepView> {
    script_copies(script_names()) + icon_copies(icon_sizes_spec(), RELEASE_DIR@) + seq![
        release_copy("resources/i18n/en-US/builtin.ftl"@, "resources/i18n/en-US/builtin.ftl"@),
        release_copy(
            "resources/repository/application-repository.toml"@,
            "resources/repository/application-repository.toml"@,
        ),
        release_copy("extra/windows/dist/startmenu/user/Browsers.lnk"@, "startmenu/user/Browsers.lnk"@),
        release_copy("extra/windows/dist/startmenu/system/Browsers.lnk"@, "startmenu/system/Browsers.lnk"@),
    ]
}

fn copy_scripts() -> (r: Vec<PackageStep>)
    ensures
        step_views(r@) == script_copies(script_names()),
{
    let names: Vec<&'static str> = vec!["install.bat", "announce_default.ps1", "uninstall.bat"];
    assert(names@ =~= script_names());
    let mut r: Vec<PackageStep> = Vec::new();
    let mut i: usize = 0;
    while i < names.len()
        invariant
            i <= names@.len(),
            step_views(r@) == script_copies(names@.take(i as int)),
        decreases names.len() - i,
    {
        let ghost before = r@;
        let step = PackageStep::Copy { from: join("extra/windows/dist", names[i]), to: join(RELEASE_DIR, names[i]) };
        let ghost added = step@;
        r.push(step);
        assert(names@.take(i + 1).drop_last() =~= names@.take(i as int));
        assert(step_views(r@) =~= step_views(before).push(added));
        i = i + 1;
    }
    assert(names@.take(names@.len() as int) =~= names@);
    r
}

fn assemble_bundle() -> (r: Vec<PackageStep>)
    ensures
        step_views(r@) == bundle_steps(),
{
    let mut r = copy_scripts();
    append_steps(&mut r, icon_copy_steps(RELEASE_DIR));
    let tail = vec![
        copy_to_release("resources/i18n/en-US/builtin.ftl", "resources/i18n/en-US/builtin.ftl"),
        copy_to_release(
            "resources/repository/application-repository.toml",
            "resources/repository/application-repository.toml",
        ),
        copy_to_release("extra/windows/dist/startmenu/user/Browsers.lnk", "startmenu/user/Browsers.lnk"),
        copy_to_release("extra/windows/dist/startmenu/system/Browsers.lnk", "startmenu/system/Browsers.lnk"),
    ];
    assert(step_views(tail@) =~= seq![
        release_copy("resources/i18n/en-US/builtin.ftl"@, "resources/i18n/en-US/builtin.ftl"@),
        release_copy(
            "resources/repository/application-repository.toml"@,
            "resources/repository/application-repository.toml"@,
        ),
        release_copy("extra/windows/dist/startmenu/user/Browsers.lnk"@, "startmenu/user/Browsers.lnk"@),
        release_copy("extra/windows/dist/startmenu/system/Browsers.lnk"@, "startmenu/system/Browsers.lnk"@),
    ]);
    append_steps(&mut r, tail);
    r
}

/// The zip file: removing an old one, then `zip` in the release directory
/// with the archive files.
pub open spec fn zip_steps(files: Seq<Seq<char>>) -> Seq<PackageStepView> {
    seq![
        PackageStepView::RemoveFile(joined(RELEASE_DIR@, "Browsers_windows.zip"@)),
        PackageStepView::Run(PackageCommandView {
            program: "zip"@,
            args: seq![CommandArgView::Text("Browsers_windows.zip"@)] + text_args(files),
            env: Seq::empty(),
            dir: RELEASE_DIR@,
        }),
    ]
}

fn create_zip(files: &[&str]) -> (r: Vec<PackageStep>)
    ensures
        step_views(r@) == zip_steps(name_views(files@)),
{
    let mut args: Vec<CommandArg> = vec![CommandArg::Text(String::from_str("Browsers_windows.zip"))];
    let ghost head = args@;
    assert(crate::xtask::package::arg_views(head) =~= seq![CommandArgView::Text("Browsers_windows.zip"@)]);
    let mut rest = text_args_of(files);
    let ghost tail = rest@;
    args.append(&mut rest);
    assert(crate::xtask::package::arg_views(args@) =~= crate::xtask::package::arg_views(head)
        + crate::xtask::package::arg_views(tail));
    let env: Vec<(String, String)> = Vec::new();
    let zip = PackageCommand { program: String::from_str("zip"), args, env, dir: String::from_str(RELEASE_DIR) };
    assert(pair_views(zip.env@) =~= Seq::<(Seq<char>, Seq<char>)>::empty());
    let r = vec![PackageStep::RemoveFile(join(RELEASE_DIR, "Browsers_windows.zip")), PackageStep::Run(zip)];
    assert(step_views(r@) =~= zip_steps(name_views(files@)));
    r
}

/// The Windows packaging plan: compiling both architectures (unless
/// skipped), the binaries and bundle in the release directory, a zip file,
/// then gzip and xz archives with checksums.
pub open spec fn windows_plan(skip_build: bool) -> Seq<PackageStepView> {
    let files = name_views(windows_archive_files());
    (if skip_build { Seq::empty() } else { compile_steps() })
        + binaries_steps()
        + bundle_steps()
        + zip_steps(files)
        + archive_steps(RELEASE_DIR@, "browsers_windows.tar.gz"@, ArchiveCompression::Gzip, files)
        + archive_steps(RELEASE_DIR@, "browsers_windows.tar.xz"@, ArchiveCompression::Xz, files)
}

/// The steps that build the Windows release.
pub fn package(skip_build: bool) -> (r: Vec<PackageStep>)
    ensures
        step_views(r@) == windows_plan(skip_build),
{
    let files = archive_files();
    let mut r: Vec<PackageStep> = Vec::new();
    if !skip_build {
        append_steps(&mut r, compile());
    }
    assert(step_views(r@) =~= (if skip_build { Seq::empty() } else { compile_steps() }));
    append_steps(&mut r, assemble_binaries());
    append_steps(&mut r, assemble_bundle());
    append_steps(&mut r, create_zip(files.as_slice()));
    append_steps(&mut r, create_archive(RELEASE_DIR, "browsers_windows.tar.gz", ArchiveCompression::Gzip, files.as_slice()));
    append_steps(&mut r, create_archive(RELEASE_DIR, "browsers_windows.tar.xz", ArchiveCompression::Xz, files.as_slice()));
    r
}

/// The steps that fill the Windows release directory: the binaries, then
/// the bundle.
pub open spec fn windows_assembly() -> Seq<PackageStepView> {
    binaries_steps() + bundle_steps()
}

/// Every file the Windows zip file and archives hold is copied into the
/// release directory when it is assembled, before they are made.
pub proof fn windows_archives_hold_assembled_files(i: int)
    requires
        0 <= i < windows_archive_files().len(),
    ensures
        exists|j: int| 0 <= j < windows_assembly().len()
            && copies_to(#[trigger] windows_assembly()[j], joined(RELEASE_DIR@, windows_archive_files()[i]@)),
{
    reveal_with_fuel(script_copies, 4);
    reveal_with_fuel(crate::xtask::package::icon_copies, 7);
    let a = windows_assembly();
    let path = joined(RELEASE_DIR@, windows_archive_files()[i]@);
    assert(script_copies(script_names()).len() == 3);
    assert(icon_copies(icon_sizes_spec(), RELEASE_DIR@).len() == 6);
    if i < 2 {
        assert(copies_to(a[i + 1], path));
    } else if i < 8 {
        icon_archive_path(RELEASE_DIR@, i - 2);
        assert(windows_archive_files()[i] == icon_archive_names()[i - 2]);
        assert(copies_to(a[i + 4], path));
    } else if i == 8 {
        assert(copies_to(a[12], path));
    } else if i == 9 {
        assert(copies_to(a[13], path));
    } else if i == 10 {
        assert(copies_to(a[3], path));
    } else if i == 11 {
        assert(copies_to(a[5], path));
    } else if i == 12 {
        assert(copies_to(a[4], path));
    } else if i == 13 {
        assert(copies_to(a[14], path));
    } else {
        assert(copies_to(a[15], path));
    }
}

} // verus!

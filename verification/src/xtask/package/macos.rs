//! The macOS packaging plan: a universal binary, the application bundle,
//! a disk image with its volume icon, and tar archives of the bundle.

use vstd::prelude::*;
use vstd::string::*;
use crate::xtask::package::{
    append_steps, archive_steps, build_runs, build_steps, command_in_root, create_archive, join, joined,
    name_views, pair_views, root_command, step_views, text_arg, ArchiveCompression, CommandArg,
    CommandArgView, PackageStep, PackageStepView,
};

verus! {

/// Where the macOS release files are assembled.
pub const RELEASE_DIR: &'static str = "target/universal-apple-darwin/release";

/// Where the disk image's contents are gathered.
pub const DMG_WORKING_DIR: &'static str = "target/packaging/macos/Browsers";

/// The disk image's volume icon and Finder layout.
pub const DMG_SOURCE_DIR: &'static str = "extra/macos/dmg/dmg_source";

/// The Rust targets of the universal binary.
pub open spec fn macos_triples() -> Seq<&'static str> {
    seq!["x86_64-apple-darwin", "aarch64-apple-darwin"]
}

/// Compiling each architecture with `cargo` for macOS 10.7 and later.
pub open spec fn compile_steps() -> Seq<PackageStepView> {
    build_runs("cargo"@, macos_triples(), seq![("MACOSX_DEPLOYMENT_TARGET"@, "10.7"@)])
}

fn compile() -> (r: Vec<PackageStep>)
    ensures
        step_views(r@) == compile_steps(),
{
    let triples: Vec<&'static str> = vec!["x86_64-apple-darwin", "aarch64-apple-darwin"];
    assert(triples@ =~= macos_triples());
    let env = vec![(String::from_str("MACOSX_DEPLOYMENT_TARGET"), String::from_str("10.7"))];
    assert(pair_views(env@) =~= seq![("MACOSX_DEPLOYMENT_TARGET"@, "10.7"@)]);
    build_steps("cargo", triples.as_slice(), &env)
}

/// The universal binary: `<release>/Browsers`.
pub open spec fn universal_binary() -> Seq<char> {
    joined(RELEASE_DIR@, "Browsers"@)
}

/// Emptying the release directory, joining both architectures' binaries
/// with `lipo`, and making the result executable.
pub open spec fn binary_steps() -> Seq<PackageStepView> {
    seq![
        PackageStepView::ResetDir(RELEASE_DIR@),
        PackageStepView::Run(command_in_root(
            "lipo"@,
            seq![
                CommandArgView::Text("-create"@),
                CommandArgView::Text("-output"@),
                CommandArgView::Path(universal_binary()),
                CommandArgView::Path("target/x86_64-apple-darwin/release/browsers"@),
                CommandArgView::Path("target/aarch64-apple-darwin/release/browsers"@),
            ],
        )),
        PackageStepView::MakeExecutable(universal_binary()),
    ]
}

fn assemble_binary() -> (r: Vec<PackageStep>)
    ensures
        step_views(r@) == binary_steps(),
{
    let args: Vec<CommandArg> = vec![
        text_arg("-create"),
        text_arg("-output"),
        CommandArg::Path(join(RELEASE_DIR, "Browsers")),
        CommandArg::Path(String::from_str("target/x86_64-apple-darwin/release/browsers")),
        CommandArg::Path(String::from_str("target/aarch64-apple-darwin/release/browsers")),
    ];
    assert(crate::xtask::package::arg_views(args@) =~= seq![
        CommandArgView::Text("-create"@),
        CommandArgView::Text("-output"@),
        CommandArgView::Path(universal_binary()),
        CommandArgView::Path("target/x86_64-apple-darwin/release/browsers"@),
        CommandArgView::Path("target/aarch64-apple-darwin/release/browsers"@),
    ]);
    let r = vec![
        PackageStep::ResetDir(String::from_str(RELEASE_DIR)),
        PackageStep::Run(root_command("lipo", args)),
        PackageStep::MakeExecutable(join(RELEASE_DIR, "Browsers")),
    ];
    assert(step_views(r@) =~= binary_steps());
    r
}

/// `<release>/Browsers.app/Contents`.
pub open spec fn contents_dir() -> Seq<char> {
    joined(RELEASE_DIR@, "Browsers.app/Contents"@)
}

/// A copy into the bundle's contents.
pub open spec fn contents_copy(from: Seq<char>, to: Seq<char>) -> PackageStepView {
    PackageStepView::Copy { from, to: joined(contents_dir(), to) }
}

/// The application bundle: its property list, icons, translations,
/// application repository and binary.
pub open spec fn app_steps() -> Seq<PackageStepView> {
    seq![
        contents_copy("target/universal-apple-darwin/meta/Info.plist"@, "Info.plist"@),
        contents_copy("extra/macos/icons/Browsers.icns"@, "Resources/Browsers.icns"@),
        contents_copy(
            "resources/icons/512x512/software.Browsers.png"@,
            "Resources/icons/512x512/software.Browsers.png"@,
        ),
        contents_copy("resources/i18n/en-US/builtin.ftl"@, "Resources/i18n/en-US/builtin.ftl"@),
        contents_copy(
            "resources/repository/application-repository.toml"@,
            "Resources/repository/application-repository.toml"@,
        ),
        contents_copy(universal_binary(), "MacOS/Browsers"@),
    ]
}

fn copy_to_contents(contents: &String, from: String, to: &str) -> (r: PackageStep)
    requires
        contents@ == contents_dir(),
    ensures
        r@ == contents_copy(from@, to@),
{
    PackageStep::Copy { from, to: join(contents.as_str(), to) }
}

fn assemble_app() -> (r: Vec<PackageStep>)
    ensures
        step_views(r@) == app_steps(),
{
    let contents = join(RELEASE_DIR, "Browsers.app/Contents");
    let r = vec![
        copy_to_contents(&contents, String::from_str("target/universal-apple-darwin/meta/Info.plist"), "Info.plist"),
        copy_to_contents(&contents, String::from_str("extra/macos/icons/Browsers.icns"), "Resources/Browsers.icns"),
        copy_to_contents(
            &contents,
            String::from_str("resources/icons/512x512/software.Browsers.png"),
            "Resources/icons/512x512/software.Browsers.png",
        ),
        copy_to_contents(
            &contents,
            String::from_str("resources/i18n/en-US/builtin.ftl"),
            "Resources/i18n/en-US/builtin.ftl",
        ),
        copy_to_contents(
            &contents,
            String::from_str("resources/repository/application-repository.toml"),
            "Resources/repository/application-repository.toml",
        ),
        copy_to_contents(&contents, join(RELEASE_DIR, "Browsers"), "MacOS/Browsers"),
    ];
    assert(step_views(r@) =~= app_steps());
    r
}

/// A path in the disk image's working directory.
pub open spec fn working(rel: Seq<char>) -> Seq<char> {
    joined(DMG_WORKING_DIR@, rel)
}

/// A path in the disk image's source assets.
pub open spec fn dmg_source(rel: Seq<char>) -> Seq<char> {
    joined(DMG_SOURCE_DIR@, rel)
}

/// The disk image: `<release>/Browsers.dmg`.
pub open spec fn dmg_path() -> Seq<char> {
    joined(RELEASE_DIR@, "Browsers.dmg"@)
}

/// The copy of the volume icon whose resource fork is attached to the
/// image.
pub open spec fn copied_icon() -> Seq<char> {
    working("copy_VolumeIcon.icns"@)
}

/// The disk image: the bundle, volume icon, Finder layout and an
/// `Applications` link gathered in a working directory; `hdiutil` making
/// the image from it; the volume icon's resource attached with `sips`,
/// `DeRez`, `Rez` and `SetFile`; then the working directory removed.
pub open spec fn dmg_steps() -> Seq<PackageStepView> {
    seq![
        PackageStepView::ResetDir(DMG_WORKING_DIR@),
        PackageStepView::CreateDir(working(".background"@)),
        PackageStepView::CopyDir { from: joined(RELEASE_DIR@, "Browsers.app"@), to: working("Browsers.app"@) },
        PackageStepView::Copy { from: dmg_source(".VolumeIcon.icns"@), to: working(".VolumeIcon.icns"@) },
        PackageStepView::Copy { from: dmg_source(".DS_Store"@), to: working(".DS_Store"@) },
        PackageStepView::Symlink { target: "/Applications"@, link: working("Applications"@) },
        PackageStepView::RemoveFile(dmg_path()),
        PackageStepView::Run(command_in_root(
            "hdiutil"@,
            seq![
                CommandArgView::Text("create"@),
                CommandArgView::Text("-volname"@),
                CommandArgView::Text("Browsers"@),
                CommandArgView::Text("-srcfolder"@),
                CommandArgView::Path(DMG_WORKING_DIR@),
                CommandArgView::Text("-ov"@),
                CommandArgView::Path(dmg_path()),
            ],
        )),
        PackageStepView::Copy { from: dmg_source(".VolumeIcon.icns"@), to: copied_icon() },
        PackageStepView::Run(command_in_root(
            "sips"@,
            seq![CommandArgView::Text("-i"@), CommandArgView::Path(copied_icon())],
        )),
        PackageStepView::RunInto(
            command_in_root(
                "DeRez"@,
                seq![CommandArgView::Text("-only"@), CommandArgView::Text("icns"@), CommandArgView::Path(copied_icon())],
            ),
            working("copy_VolumeIcon.rsrc"@),
        ),
        PackageStepView::Run(command_in_root(
            "Rez"@,
            seq![
                CommandArgView::Text("-append"@),
                CommandArgView::Path(working("copy_VolumeIcon.rsrc"@)),
                CommandArgView::Text("-o"@),
                CommandArgView::Path(dmg_path()),
            ],
        )),
        PackageStepView::Run(command_in_root(
            "SetFile"@,
            seq![CommandArgView::Text("-a"@), CommandArgView::Text("C"@), CommandArgView::Path(dmg_path())],
        )),
        PackageStepView::RemoveDir(DMG_WORKING_DIR@),
    ]
}

fn path_arg(path: &String) -> (r: CommandArg)
    ensures
        r@ == CommandArgView::Path(path@),
{
    CommandArg::Path(path.clone())
}

fn gather_dmg_contents() -> (r: Vec<PackageStep>)
    ensures
        step_views(r@) == dmg_steps().take(6),
{
    let r = vec![
        PackageStep::ResetDir(String::from_str(DMG_WORKING_DIR)),
        PackageStep::CreateDir(join(DMG_WORKING_DIR, ".background")),
        PackageStep::CopyDir { from: join(RELEASE_DIR, "Browsers.app"), to: join(DMG_WORKING_DIR, "Browsers.app") },
        PackageStep::Copy {
            from: join(DMG_SOURCE_DIR, ".VolumeIcon.icns"),
            to: join(DMG_WORKING_DIR, ".VolumeIcon.icns"),
        },
        PackageStep::Copy { from: join(DMG_SOURCE_DIR, ".DS_Store"), to: join(DMG_WORKING_DIR, ".DS_Store") },
        PackageStep::Symlink { target: String::from_str("/Applications"), link: join(DMG_WORKING_DIR, "Applications") },
    ];
    assert(step_views(r@) =~= dmg_steps().take(6));
    r
}

fn make_dmg_image() -> (r: Vec<PackageStep>)
    ensures
        step_views(r@) == dmg_steps().subrange(6, 8),
{
    let dmg = join(RELEASE_DIR, "Browsers.dmg");
    let working_dir = String::from_str(DMG_WORKING_DIR);
    let args: Vec<CommandArg> = vec![
        text_arg("create"),
        text_arg("-volname"),
        text_arg("Browsers"),
        text_arg("-srcfolder"),
        path_arg(&working_dir),
        text_arg("-ov"),
        path_arg(&dmg),
    ];
    assert(crate::xtask::package::arg_views(args@) =~= seq![
        CommandArgView::Text("create"@),
        CommandArgView::Text("-volname"@),
        CommandArgView::Text("Browsers"@),
        CommandArgView::Text("-srcfolder"@),
        CommandArgView::Path(DMG_WORKING_DIR@),
        CommandArgView::Text("-ov"@),
        CommandArgView::Path(dmg_path()),
    ]);
    let r = vec![PackageStep::RemoveFile(dmg), PackageStep::Run(root_command("hdiutil", args))];
    assert(step_views(r@) =~= dmg_steps().subrange(6, 8));
    r
}

fn attach_volume_icon() -> (r: Vec<PackageStep>)
    ensures
        step_views(r@) == dmg_steps().skip(8),
{
    let dmg = join(RELEASE_DIR, "Browsers.dmg");
    let copied = join(DMG_WORKING_DIR, "copy_VolumeIcon.icns");
    let resource = join(DMG_WORKING_DIR, "copy_VolumeIcon.rsrc");
    let sips_args: Vec<CommandArg> = vec![text_arg("-i"), path_arg(&copied)];
    assert(crate::xtask::package::arg_views(sips_args@) =~= seq![
        CommandArgView::Text("-i"@),
        CommandArgView::Path(copied_icon()),
    ]);
    let derez_args: Vec<CommandArg> = vec![text_arg("-only"), text_arg("icns"), path_arg(&copied)];
    assert(crate::xtask::package::arg_views(derez_args@) =~= seq![
        CommandArgView::Text("-only"@),
        CommandArgView::Text("icns"@),
        CommandArgView::Path(copied_icon()),
    ]);
    let rez_args: Vec<CommandArg> = vec![text_arg("-append"), path_arg(&resource), text_arg("-o"), path_arg(&dmg)];
    assert(crate::xtask::package::arg_views(rez_args@) =~= seq![
        CommandArgView::Text("-append"@),
        CommandArgView::Path(working("copy_VolumeIcon.rsrc"@)),
        CommandArgView::Text("-o"@),
        CommandArgView::Path(dmg_path()),
    ]);
    let set_file_args: Vec<CommandArg> = vec![text_arg("-a"), text_arg("C"), path_arg(&dmg)];
    assert(crate::xtask::package::arg_views(set_file_args@) =~= seq![
        CommandArgView::Text("-a"@),
        CommandArgView::Text("C"@),
        CommandArgView::Path(dmg_path()),
    ]);
    let r = vec![
        PackageStep::Copy { from: join(DMG_SOURCE_DIR, ".VolumeIcon.icns"), to: copied },
        PackageStep::Run(root_command("sips", sips_args)),
        PackageStep::RunInto(root_command("DeRez", derez_args), resource),
        PackageStep::Run(root_command("Rez", rez_args)),
        PackageStep::Run(root_command("SetFile", set_file_args)),
        PackageStep::RemoveDir(String::from_str(DMG_WORKING_DIR)),
    ];
    assert(step_views(r@) =~= dmg_steps().skip(8));
    r
}

fn create_dmg() -> (r: Vec<PackageStep>)
    ensures
        step_views(r@) == dmg_steps(),
{
    let mut r = gather_dmg_contents();
    append_steps(&mut r, make_dmg_image());
    append_steps(&mut r, attach_volume_icon());
    assert(step_views(r@) =~= dmg_steps());
    r
}

/// The macOS packaging plan: compiling both architectures (unless
/// skipped), the universal binary and application bundle, the disk image,
/// then gzip and xz archives of the bundle with checksums.
pub open spec fn macos_plan(skip_build: bool) -> Seq<PackageStepView> {
    let files = seq!["Browsers.app"@];
    (if skip_build { Seq::empty() } else { compile_steps() })
        + binary_steps()
        + app_steps()
        + dmg_steps()
        + archive_steps(RELEASE_DIR@, "browsers_mac.tar.gz"@, ArchiveCompression::Gzip, files)
        + archive_steps(RELEASE_DIR@, "browsers_mac.tar.xz"@, ArchiveCompression::Xz, files)
}

/// The steps that build the macOS release.
pub fn package(skip_build: bool) -> (r: Vec<PackageStep>)
    ensures
        step_views(r@) == macos_plan(skip_build),
{
    let files: Vec<&'static str> = vec!["Browsers.app"];
    assert(name_views(files@) =~= seq!["Browsers.app"@]);
    let mut r: Vec<PackageStep> = Vec::new();
    if !skip_build {
        append_steps(&mut r, compile());
    }
    assert(step_views(r@) =~= (if skip_build { Seq::empty() } else { compile_steps() }));
    append_steps(&mut r, assemble_binary());
    append_steps(&mut r, assemble_app());
    append_steps(&mut r, create_dmg());
    append_steps(&mut r, create_archive(RELEASE_DIR, "browsers_mac.tar.gz", ArchiveCompression::Gzip, files.as_slice()));
    append_steps(&mut r, create_archive(RELEASE_DIR, "browsers_mac.tar.xz", ArchiveCompression::Xz, files.as_slice()));
    r
}

} // verus!

//! The Linux packaging plan: binaries for three architectures, a bundle
//! with an install script, tar archives, and Debian and RPM packages.

use vstd::prelude::*;
use vstd::string::*;
use crate::text::decimal;
use crate::xtask::package::{
    archive_steps, copies_to, icon_archive_names, icon_archive_path, append_steps, build_runs, build_steps, command_in_root, create_archive, deb_filename,
    deb_name, icon_copies, icon_copy_steps, icon_sizes, icon_sizes_spec, join, joined, name_views, pair_views,
    root_command, rpm_filename, rpm_name, step_views, text_arg, ArchiveCompression, CommandArg,
    CommandArgView, PackageCommandView, PackageStep, PackageStepView,
};

verus! {

/// Where the Linux release files are assembled.
pub const RELEASE_DIR: &'static str = "target/universal-unknown-linux-gnu/release";

/// Where the Debian and RPM package trees are built.
pub const PACKAGING_DIR: &'static str = "target/packaging/linux";

/// A Linux architecture: its Rust target, its directory in the release,
/// and its Debian and RPM architecture names.
pub struct LinuxTarget {
    pub triple: &'static str,
    pub output_dir: &'static str,
    pub deb_arch: &'static str,
    pub rpm_arch: &'static str,
}

/// The architectures packaged for Linux.
pub open spec fn linux_targets() -> Seq<LinuxTarget> {
    seq![
        LinuxTarget {
            triple: "x86_64-unknown-linux-gnu",
            output_dir: "x86_64",
            deb_arch: "amd64",
            rpm_arch: "x86_64",
        },
        LinuxTarget {
            triple: "aarch64-unknown-linux-gnu",
            output_dir: "aarch64",
            deb_arch: "arm64",
            rpm_arch: "aarch64",
        },
        LinuxTarget {
            triple: "armv7-unknown-linux-gnueabihf",
            output_dir: "armv7l",
            deb_arch: "armhf",
            rpm_arch: "armhfp",
        },
    ]
}

/// The architectures packaged for Linux.
pub fn targets() -> (r: Vec<LinuxTarget>)
    ensures
        r@ == linux_targets(),
{
    let r = vec![
        LinuxTarget {
            triple: "x86_64-unknown-linux-gnu",
            output_dir: "x86_64",
            deb_arch: "amd64",
            rpm_arch: "x86_64",
        },
        LinuxTarget {
            triple: "aarch64-unknown-linux-gnu",
            output_dir: "aarch64",
            deb_arch: "arm64",
            rpm_arch: "aarch64",
        },
        LinuxTarget {
            triple: "armv7-unknown-linux-gnueabihf",
            output_dir: "armv7l",
            deb_arch: "armhf",
            rpm_arch: "armhfp",
        },
    ];
    assert(r@ =~= linux_targets());
    r
}

/// The files the Linux archives hold, relative to the release directory.
pub open spec fn linux_archive_files() -> Seq<&'static str> {
    seq![
        "x86_64/browsers",
        "aarch64/browsers",
        "armv7l/browsers",
        "resources/i18n/en-US/builtin.ftl",
        "resources/icons/16x16/software.Browsers.png",
        "resources/icons/32x32/software.Browsers.png",
        "resources/icons/64x64/software.Browsers.png",
        "resources/icons/128x128/software.Browsers.png",
        "resources/icons/256x256/software.Browsers.png",
        "resources/icons/512x512/software.Browsers.png",
        "resources/repository/application-repository.toml",
        "template/share/applications/software.Browsers.template.desktop",
        "template/share/dbus-1/services/software.Browsers.service",
        "template/share/xfce4/helpers/software.Browsers.template.desktop",
        "install.sh",
        "uninstall.sh",
    ]
}

/// The files the Linux archives hold.
pub fn archive_files() -> (r: Vec<&'static str>)
    ensures
        r@ == linux_archive_files(),
{
    let r = vec![
        "x86_64/browsers",
        "aarch64/browsers",
        "armv7l/browsers",
        "resources/i18n/en-US/builtin.ftl",
        "resources/icons/16x16/software.Browsers.png",
        "resources/icons/32x32/software.Browsers.png",
        "resources/icons/64x64/software.Browsers.png",
        "resources/icons/128x128/software.Browsers.png",
        "resources/icons/256x256/software.Browsers.png",
        "resources/icons/512x512/software.Browsers.png",
        "resources/repository/application-repository.toml",
        "template/share/applications/software.Browsers.template.desktop",
        "template/share/dbus-1/services/software.Browsers.service",
        "template/share/xfce4/helpers/software.Browsers.template.desktop",
        "install.sh",
        "uninstall.sh",
    ];
    assert(r@ =~= linux_archive_files());
    r
}

/// The Rust target triples of some architectures.
pub open spec fn triples_of(targets: Seq<LinuxTarget>) -> Seq<&'static str> {
    targets.map_values(|t: LinuxTarget| t.triple)
}

/// `target/<triple>`: where an architecture's build output is.
pub open spec fn target_dir(t: LinuxTarget) -> Seq<char> {
    joined("target"@, t.triple@)
}

/// Cross-compiling each architecture with `cross`.
pub open spec fn compile_steps(targets: Seq<LinuxTarget>) -> Seq<PackageStepView> {
    build_runs("cross"@, triples_of(targets), seq![("CROSS_NO_WARNINGS"@, "0"@)])
}

fn compile(targets: &Vec<LinuxTarget>) -> (r: Vec<PackageStep>)
    ensures
        step_views(r@) == compile_steps(targets@),
{
    let mut triples: Vec<&'static str> = Vec::new();
    let mut i: usize = 0;
    while i < targets.len()
        invariant
            i <= targets@.len(),
            triples@ == triples_of(targets@.take(i as int)),
        decreases targets.len() - i,
    {
        triples.push(targets[i].triple);
        assert(triples@ =~= triples_of(targets@.take(i + 1)));
        i = i + 1;
    }
    assert(targets@.take(targets@.len() as int) =~= targets@);
    let env = vec![(String::from_str("CROSS_NO_WARNINGS"), String::from_str("0"))];
    assert(pair_views(env@) =~= seq![("CROSS_NO_WARNINGS"@, "0"@)]);
    build_steps("cross", triples.as_slice(), &env)
}

/// The copy of an architecture's binary into the release directory.
pub open spec fn binary_copy(t: LinuxTarget) -> PackageStepView {
    PackageStepView::Copy {
        from: joined(target_dir(t), "release/browsers"@),
        to: joined(joined(RELEASE_DIR@, t.output_dir@), "browsers"@),
    }
}

/// The copies of the architectures' binaries.
pub open spec fn binary_copies(targets: Seq<LinuxTarget>) -> Seq<PackageStepView>
    decreases targets.len(),
{
    if targets.len() == 0 {
        Seq::empty()
    } else {
        binary_copies(targets.drop_last()).push(binary_copy(targets.last()))
    }
}

/// Emptying the release directory, then copying in each binary.
pub open spec fn binaries_steps(targets: Seq<LinuxTarget>) -> Seq<PackageStepView> {
    seq![PackageStepView::ResetDir(RELEASE_DIR@)] + binary_copies(targets)
}

fn assemble_binaries(targets: &Vec<LinuxTarget>) -> (r: Vec<PackageStep>)
    ensures
        step_views(r@) == binaries_steps(targets@),
{
    let mut r: Vec<PackageStep> = vec![PackageStep::ResetDir(String::from_str(RELEASE_DIR))];
    let mut i: usize = 0;
    while i < targets.len()
        invariant
            i <= targets@.len(),
            step_views(r@) == seq![PackageStepView::ResetDir(RELEASE_DIR@)] + binary_copies(targets@.take(i as int)),
        decreases targets.len() - i,
    {
        let t = &targets[i];
        let from = join(join("target", t.triple).as_str(), "release/browsers");
        let to = join(join(RELEASE_DIR, t.output_dir).as_str(), "browsers");
        let ghost before = r@;
        r.push(PackageStep::Copy { from, to });
        assert(targets@.take(i + 1).drop_last() =~= targets@.take(i as int));
        assert(step_views(r@) =~= step_views(before).push(binary_copy(targets@[i as int])));
        i = i + 1;
    }
    assert(targets@.take(targets@.len() as int) =~= targets@);
    r
}

/// A copy into the release directory.
pub open spec fn release_copy(from: Seq<char>, to: Seq<char>) -> PackageStepView {
    PackageStepView::Copy { from, to: joined(RELEASE_DIR@, to) }
}

/// The install scripts, icons, translations, application repository and
/// desktop templates copied into the release directory.
pub open spec fn bundle_steps() -> Seq<PackageStepView> {
    seq![
        release_copy("extra/linux/dist/install.sh"@, "install.sh"@),
        release_copy("extra/linux/dist/uninstall.sh"@, "uninstall.sh"@),
    ] + icon_copies(icon_sizes_spec(), RELEASE_DIR@) + seq![
        release_copy("resources/i18n/en-US/builtin.ftl"@, "resources/i18n/en-US/builtin.ftl"@),
        release_copy(
            "resources/repository/application-repository.toml"@,
            "resources/repository/application-repository.toml"@,
        ),
        release_copy(
            "extra/linux/dist/software.Browsers.template.desktop"@,
            "template/share/applications/software.Browsers.template.desktop"@,
        ),
        release_copy(
            "extra/linux/dist/software.Browsers.service"@,
            "template/share/dbus-1/services/software.Browsers.service"@,
        ),
        release_copy(
            "extra/linux/dist/xfce4/helpers/software.Browsers.template.desktop"@,
            "template/share/xfce4/helpers/software.Browsers.template.desktop"@,
        ),
    ]
}

fn copy_to_release(from: &str, to: &str) -> (r: PackageStep)
    ensures
        r@ == release_copy(from@, to@),
{
    PackageStep::Copy { from: String::from_str(from), to: join(RELEASE_DIR, to) }
}

fn assemble_bundle() -> (r: Vec<PackageStep>)
    ensures
        step_views(r@) == bundle_steps(),
{
    let mut r = vec![
        copy_to_release("extra/linux/dist/install.sh", "install.sh"),
        copy_to_release("extra/linux/dist/uninstall.sh", "uninstall.sh"),
    ];
    let ghost head = r@;
    append_steps(&mut r, icon_copy_steps(RELEASE_DIR));
    let ghost middle = r@;
    let tail = vec![
        copy_to_release("resources/i18n/en-US/builtin.ftl", "resources/i18n/en-US/builtin.ftl"),
        copy_to_release(
            "resources/repository/application-repository.toml",
            "resources/repository/application-repository.toml",
        ),
        copy_to_release(
            "extra/linux/dist/software.Browsers.template.desktop",
            "template/share/applications/software.Browsers.template.desktop",
        ),
        copy_to_release(
            "extra/linux/dist/software.Browsers.service",
            "template/share/dbus-1/services/software.Browsers.service",
        ),
        copy_to_release(
            "extra/linux/dist/xfce4/helpers/software.Browsers.template.desktop",
            "template/share/xfce4/helpers/software.Browsers.template.desktop",
        ),
    ];
    assert(step_views(head) =~= seq![
        release_copy("extra/linux/dist/install.sh"@, "install.sh"@),
        release_copy("extra/linux/dist/uninstall.sh"@, "uninstall.sh"@),
    ]);
    assert(step_views(tail@) =~= seq![
        release_copy("resources/i18n/en-US/builtin.ftl"@, "resources/i18n/en-US/builtin.ftl"@),
        release_copy(
            "resources/repository/application-repository.toml"@,
            "resources/repository/application-repository.toml"@,
        ),
        release_copy(
            "extra/linux/dist/software.Browsers.template.desktop"@,
            "template/share/applications/software.Browsers.template.desktop"@,
        ),
        release_copy(
            "extra/linux/dist/software.Browsers.service"@,
            "template/share/dbus-1/services/software.Browsers.service"@,
        ),
        release_copy(
            "extra/linux/dist/xfce4/helpers/software.Browsers.template.desktop"@,
            "template/share/xfce4/helpers/software.Browsers.template.desktop"@,
        ),
    ]);
    append_steps(&mut r, tail);
    r
}

/// `usr/share/icons/hicolor/<size>x<size>/apps/software.Browsers.png`.
pub open spec fn hicolor_icon(size: nat) -> Seq<char> {
    "usr/share/icons/hicolor/"@ + decimal(size) + seq!['x'] + decimal(size) + "/apps/software.Browsers.png"@
}

fn hicolor_icon_path(size: u16) -> (r: String)
    ensures
        r@ == hicolor_icon(size as nat),
{
    let mut r = String::from_str("usr/share/icons/hicolor/");
    crate::text::push_decimal(&mut r, size as u64);
    crate::text::push_char(&mut r, 'x');
    crate::text::push_decimal(&mut r, size as u64);
    r.append("/apps/software.Browsers.png");
    r
}

/// Copies of the application icons into a package tree's icon theme.
pub open spec fn hicolor_copies(sizes: Seq<u16>, root: Seq<char>) -> Seq<PackageStepView>
    decreases sizes.len(),
{
    if sizes.len() == 0 {
        Seq::empty()
    } else {
        hicolor_copies(sizes.drop_last(), root).push(PackageStepView::Copy {
            from: joined("resources"@, crate::xtask::package::icon_file(sizes.last() as nat)),
            to: joined(root, hicolor_icon(sizes.last() as nat)),
        })
    }
}

fn hicolor_copy_steps(root: &str) -> (r: Vec<PackageStep>)
    ensures
        step_views(r@) == hicolor_copies(icon_sizes_spec(), root@),
{
    let sizes = icon_sizes();
    let mut r: Vec<PackageStep> = Vec::new();
    let mut i: usize = 0;
    while i < sizes.len()
        invariant
            i <= sizes@.len(),
            sizes@ == icon_sizes_spec(),
            step_views(r@) == hicolor_copies(sizes@.take(i as int), root@),
        decreases sizes.len() - i,
    {
        let icon = crate::xtask::package::icon_file_path(sizes[i]);
        let themed = hicolor_icon_path(sizes[i]);
        let ghost before = r@;
        let step = PackageStep::Copy { from: join("resources", icon.as_str()), to: join(root, themed.as_str()) };
        let ghost added = step@;
        r.push(step);
        assert(sizes@.take(i + 1).drop_last() =~= sizes@.take(i as int));
        assert(step_views(r@) =~= step_views(before).push(added));
        i = i + 1;
    }
    assert(sizes@.take(sizes@.len() as int) =~= sizes@);
    r
}

/// The installed files of a package below `root`: the themed icons, the
/// desktop entry, D-Bus service and XFCE helper rendered for
/// `/usr/bin/browsers`, the data files and binary under
/// `usr/share/software.Browsers`, and `usr/bin/browsers` linking to it.
pub open spec fn package_tree_steps(target_dir: Seq<char>, root: Seq<char>) -> Seq<PackageStepView> {
    seq![PackageStepView::ResetDir(root)] + hicolor_copies(icon_sizes_spec(), root) + package_tree_files(target_dir, root)
}

/// The rendered templates, data files, binary and link of a package tree.
pub open spec fn package_tree_files(target_dir: Seq<char>, root: Seq<char>) -> Seq<PackageStepView> {
    let data_dir = joined(root, "usr/share/software.Browsers"@);
    seq![
        PackageStepView::RenderTemplate {
            source: "extra/linux/dist/software.Browsers.template.desktop"@,
            destination: joined(root, "usr/share/applications/software.Browsers.desktop"@),
            replacements: seq![("€ExecCommand€"@, "/usr/bin/browsers %u"@)],
        },
        PackageStepView::RenderTemplate {
            source: "extra/linux/dist/software.Browsers.service"@,
            destination: joined(root, "usr/share/dbus-1/services/software.Browsers.service"@),
            replacements: seq![("€ExecCommand€"@, "/usr/bin/browsers"@)],
        },
        PackageStepView::RenderTemplate {
            source: "extra/linux/dist/xfce4/helpers/software.Browsers.template.desktop"@,
            destination: joined(root, "usr/share/applications/xfce4/helpers/software.Browsers.desktop"@),
            replacements: seq![("€XFCEBinaries€"@, "browsers;/usr/bin/browsers;"@)],
        },
        PackageStepView::Copy {
            from: "resources/i18n/en-US/builtin.ftl"@,
            to: joined(data_dir, "resources/i18n/en-US/builtin.ftl"@),
        },
        PackageStepView::Copy {
            from: "resources/icons/512x512/software.Browsers.png"@,
            to: joined(data_dir, "resources/icons/512x512/software.Browsers.png"@),
        },
        PackageStepView::Copy {
            from: "resources/repository/application-repository.toml"@,
            to: joined(data_dir, "resources/repository/application-repository.toml"@),
        },
        PackageStepView::Copy { from: joined(target_dir, "release/browsers"@), to: joined(data_dir, "bin/browsers"@) },
        PackageStepView::Symlink {
            target: "../share/software.Browsers/bin/browsers"@,
            link: joined(root, "usr/bin/browsers"@),
        },
    ]
}

fn render_template(source: &str, destination: String, placeholder: &str, value: &str) -> (r: PackageStep)
    ensures
        r@ == (PackageStepView::RenderTemplate {
            source: source@,
            destination: destination@,
            replacements: seq![(placeholder@, value@)],
        }),
{
    let replacements = vec![(String::from_str(placeholder), String::from_str(value))];
    assert(pair_views(replacements@) =~= seq![(placeholder@, value@)]);
    PackageStep::RenderTemplate { source: String::from_str(source), destination, replacements }
}

fn create_package_tree(target_dir: &str, root: &str) -> (r: Vec<PackageStep>)
    ensures
        step_views(r@) == package_tree_steps(target_dir@, root@),
{
    let data_dir = join(root, "usr/share/software.Browsers");
    let mut r: Vec<PackageStep> = vec![PackageStep::ResetDir(String::from_str(root))];
    let ghost head = r@;
    append_steps(&mut r, hicolor_copy_steps(root));
    let tail = vec![
        render_template(
            "extra/linux/dist/software.Browsers.template.desktop",
            join(root, "usr/share/applications/software.Browsers.desktop"),
            "€ExecCommand€",
            "/usr/bin/browsers %u",
        ),
        render_template(
            "extra/linux/dist/software.Browsers.service",
            join(root, "usr/share/dbus-1/services/software.Browsers.service"),
            "€ExecCommand€",
            "/usr/bin/browsers",
        ),
        render_template(
            "extra/linux/dist/xfce4/helpers/software.Browsers.template.desktop",
            join(root, "usr/share/applications/xfce4/helpers/software.Browsers.desktop"),
            "€XFCEBinaries€",
            "browsers;/usr/bin/browsers;",
        ),
        PackageStep::Copy {
            from: String::from_str("resources/i18n/en-US/builtin.ftl"),
            to: join(data_dir.as_str(), "resources/i18n/en-US/builtin.ftl"),
        },
        PackageStep::Copy {
            from: String::from_str("resources/icons/512x512/software.Browsers.png"),
            to: join(data_dir.as_str(), "resources/icons/512x512/software.Browsers.png"),
        },
        PackageStep::Copy {
            from: String::from_str("resources/repository/application-repository.toml"),
            to: join(data_dir.as_str(), "resources/repository/application-repository.toml"),
        },
        PackageStep::Copy { from: join(target_dir, "release/browsers"), to: join(data_dir.as_str(), "bin/browsers") },
        PackageStep::Symlink {
            target: String::from_str("../share/software.Browsers/bin/browsers"),
            link: join(root, "usr/bin/browsers"),
        },
    ];
    assert(step_views(head) =~= seq![PackageStepView::ResetDir(root@)]);
    assert(step_views(tail@) =~= package_tree_files(target_dir@, root@));
    append_steps(&mut r, tail);
    r
}

/// The Debian package of an architecture: its tree under
/// `deb-<arch>`, its control file, then `dpkg-deb` writing
/// `browsers_<arch>.deb` to the architecture's release output.
pub open spec fn deb_steps(t: LinuxTarget) -> Seq<PackageStepView> {
    let root = joined(PACKAGING_DIR@, "deb-"@ + t.deb_arch@);
    package_tree_steps(target_dir(t), root) + seq![
        PackageStepView::Copy {
            from: joined(target_dir(t), "meta/deb_control/control"@),
            to: joined(root, "DEBIAN/control"@),
        },
        PackageStepView::Run(command_in_root(
            "dpkg-deb"@,
            seq![
                CommandArgView::Text("-Zxz"@),
                CommandArgView::Text("--root-owner-group"@),
                CommandArgView::Text("--build"@),
                CommandArgView::Path(root),
                CommandArgView::Path(joined(joined(target_dir(t), "release"@), deb_name(t.deb_arch@))),
            ],
        )),
    ]
}

fn build_deb(t: &LinuxTarget, target_dir: &String) -> (r: Vec<PackageStep>)
    requires
        target_dir@ == self::target_dir(*t),
    ensures
        step_views(r@) == deb_steps(*t),
{
    let mut name = String::from_str("deb-");
    name.append(t.deb_arch);
    let root = join(PACKAGING_DIR, name.as_str());
    let mut r = create_package_tree(target_dir.as_str(), root.as_str());
    let output = join(join(target_dir.as_str(), "release").as_str(), deb_filename(t.deb_arch).as_str());
    let args: Vec<CommandArg> = vec![
        text_arg("-Zxz"),
        text_arg("--root-owner-group"),
        text_arg("--build"),
        CommandArg::Path(root.clone()),
        CommandArg::Path(output),
    ];
    let ghost arg_list = seq![
        CommandArgView::Text("-Zxz"@),
        CommandArgView::Text("--root-owner-group"@),
        CommandArgView::Text("--build"@),
        CommandArgView::Path(root@),
        CommandArgView::Path(joined(joined(target_dir@, "release"@), deb_name(t.deb_arch@))),
    ];
    assert(crate::xtask::package::arg_views(args@) =~= arg_list);
    let tail = vec![
        PackageStep::Copy {
            from: join(target_dir.as_str(), "meta/deb_control/control"),
            to: join(root.as_str(), "DEBIAN/control"),
        },
        PackageStep::Run(root_command("dpkg-deb", args)),
    ];
    let ghost expected = deb_steps(*t);
    assert(step_views(tail@) =~= seq![
        PackageStepView::Copy {
            from: joined(target_dir@, "meta/deb_control/control"@),
            to: joined(root@, "DEBIAN/control"@),
        },
        PackageStepView::Run(command_in_root("dpkg-deb"@, arg_list)),
    ]);
    append_steps(&mut r, tail);
    r
}

/// `<packaging>/rpm-<arch>/rpmbuild`: an architecture's RPM build
/// directory.
pub open spec fn rpm_top(t: LinuxTarget) -> Seq<char> {
    joined(joined(PACKAGING_DIR@, "rpm-"@ + t.rpm_arch@), "rpmbuild"@)
}

/// The RPM package of an architecture: its tree and spec file under its
/// RPM build directory, `rpmbuild` for `<arch>-linux`, then the package
/// copied to the architecture's release output.
pub open spec fn rpm_steps(t: LinuxTarget) -> Seq<PackageStepView> {
    let top = rpm_top(t);
    let spec = joined(top, "SPECS/browsers.spec"@);
    package_tree_steps(target_dir(t), joined(top, "tree"@)) + seq![
        PackageStepView::Copy { from: joined(target_dir(t), "meta/rpm_spec/browsers.spec"@), to: spec },
        PackageStepView::Run(command_in_root(
            "rpmbuild"@,
            seq![
                CommandArgView::Text("--target"@),
                CommandArgView::Text(t.rpm_arch@ + "-linux"@),
                CommandArgView::Text("--define"@),
                CommandArgView::TextWithPath("_topdir "@, top),
                CommandArgView::Text("-bb"@),
                CommandArgView::Path(spec),
            ],
        )),
        PackageStepView::Copy {
            from: joined(joined(top, "RPMS"@), rpm_name(t.rpm_arch@)),
            to: joined(joined(target_dir(t), "release"@), rpm_name(t.rpm_arch@)),
        },
    ]
}

fn build_rpm(t: &LinuxTarget, target_dir: &String) -> (r: Vec<PackageStep>)
    requires
        target_dir@ == self::target_dir(*t),
    ensures
        step_views(r@) == rpm_steps(*t),
{
    let mut name = String::from_str("rpm-");
    name.append(t.rpm_arch);
    let top = join(join(PACKAGING_DIR, name.as_str()).as_str(), "rpmbuild");
    let spec = join(top.as_str(), "SPECS/browsers.spec");
    let mut r = create_package_tree(target_dir.as_str(), join(top.as_str(), "tree").as_str());
    let mut rpm_target = String::from_str(t.rpm_arch);
    rpm_target.append("-linux");
    let args: Vec<CommandArg> = vec![
        text_arg("--target"),
        CommandArg::Text(rpm_target),
        text_arg("--define"),
        CommandArg::TextWithPath(String::from_str("_topdir "), top.clone()),
        text_arg("-bb"),
        CommandArg::Path(spec.clone()),
    ];
    let ghost arg_list = seq![
        CommandArgView::Text("--target"@),
        CommandArgView::Text(t.rpm_arch@ + "-linux"@),
        CommandArgView::Text("--define"@),
        CommandArgView::TextWithPath("_topdir "@, top@),
        CommandArgView::Text("-bb"@),
        CommandArgView::Path(spec@),
    ];
    assert(crate::xtask::package::arg_views(args@) =~= arg_list);
    let filename = rpm_filename(t.rpm_arch);
    let tail = vec![
        PackageStep::Copy { from: join(target_dir.as_str(), "meta/rpm_spec/browsers.spec"), to: spec },
        PackageStep::Run(root_command("rpmbuild", args)),
        PackageStep::Copy {
            from: join(join(top.as_str(), "RPMS").as_str(), filename.as_str()),
            to: join(join(target_dir.as_str(), "release").as_str(), filename.as_str()),
        },
    ];
    assert(step_views(tail@) =~= seq![
        PackageStepView::Copy {
            from: joined(target_dir@, "meta/rpm_spec/browsers.spec"@),
            to: joined(rpm_top(*t), "SPECS/browsers.spec"@),
        },
        PackageStepView::Run(command_in_root("rpmbuild"@, arg_list)),
        PackageStepView::Copy {
            from: joined(joined(rpm_top(*t), "RPMS"@), rpm_name(t.rpm_arch@)),
            to: joined(joined(target_dir@, "release"@), rpm_name(t.rpm_arch@)),
        },
    ]);
    append_steps(&mut r, tail);
    r
}

/// A package tree installs the binary built for its own architecture:
/// the tree under `root` for the build output `target_dir` copies
/// `<target_dir>/release/browsers` to
/// `<root>/usr/share/software.Browsers/bin/browsers`.
pub proof fn package_tree_installs_its_binary(target_dir: Seq<char>, root: Seq<char>)
    ensures
        package_tree_steps(target_dir, root).contains(PackageStepView::Copy {
            from: joined(target_dir, "release/browsers"@),
            to: joined(root, "usr/share/software.Browsers/bin/browsers"@),
        }),
{
    reveal_with_fuel(hicolor_copies, 7);
    reveal_strlit("usr/share/software.Browsers");
    reveal_strlit("bin/browsers");
    reveal_strlit("usr/share/software.Browsers/bin/browsers");
    let steps = package_tree_steps(target_dir, root);
    assert(hicolor_copies(icon_sizes_spec(), root).len() == 6);
    let data_dir = joined(root, "usr/share/software.Browsers"@);
    assert(joined(data_dir, "bin/browsers"@) =~= joined(root, "usr/share/software.Browsers/bin/browsers"@));
    assert(steps[13] == package_tree_files(target_dir, root)[6]);
}

/// Every Debian and RPM package of an architecture installs the binary
/// built for that architecture (`target/<triple>/release/browsers`).
pub proof fn linux_packages_install_their_own_binary(t: LinuxTarget)
    ensures
        deb_steps(t).contains(PackageStepView::Copy {
            from: joined(joined("target"@, t.triple@), "release/browsers"@),
            to: joined(joined(PACKAGING_DIR@, "deb-"@ + t.deb_arch@), "usr/share/software.Browsers/bin/browsers"@),
        }),
        rpm_steps(t).contains(PackageStepView::Copy {
            from: joined(joined("target"@, t.triple@), "release/browsers"@),
            to: joined(joined(rpm_top(t), "tree"@), "usr/share/software.Browsers/bin/browsers"@),
        }),
{
    let deb_root = joined(PACKAGING_DIR@, "deb-"@ + t.deb_arch@);
    let rpm_root = joined(rpm_top(t), "tree"@);
    package_tree_installs_its_binary(target_dir(t), deb_root);
    package_tree_installs_its_binary(target_dir(t), rpm_root);
    let deb_copy = PackageStepView::Copy {
        from: joined(target_dir(t), "release/browsers"@),
        to: joined(deb_root, "usr/share/software.Browsers/bin/browsers"@),
    };
    let rpm_copy = PackageStepView::Copy {
        from: joined(target_dir(t), "release/browsers"@),
        to: joined(rpm_root, "usr/share/software.Browsers/bin/browsers"@),
    };
    let tree_d = package_tree_steps(target_dir(t), deb_root);
    let k = choose|k: int| 0 <= k < tree_d.len() && tree_d[k] == deb_copy;
    assert(deb_steps(t)[k] == deb_copy);
    let tree_r = package_tree_steps(target_dir(t), rpm_root);
    let m = choose|m: int| 0 <= m < tree_r.len() && tree_r[m] == rpm_copy;
    assert(rpm_steps(t)[m] == rpm_copy);
}

/// Both packages of an architecture, then their copies into the
/// architecture's directory of the release.
pub open spec fn native_target_steps(t: LinuxTarget) -> Seq<PackageStepView> {
    let release = joined(target_dir(t), "release"@);
    let out = joined(RELEASE_DIR@, t.output_dir@);
    deb_steps(t) + rpm_steps(t) + seq![
        PackageStepView::Copy {
            from: joined(release, deb_name(t.deb_arch@)),
            to: joined(out, deb_name(t.deb_arch@)),
        },
        PackageStepView::Copy {
            from: joined(release, rpm_name(t.rpm_arch@)),
            to: joined(out, rpm_name(t.rpm_arch@)),
        },
    ]
}

/// The packages of each architecture.
pub open spec fn native_steps_each(targets: Seq<LinuxTarget>) -> Seq<PackageStepView>
    decreases targets.len(),
{
    if targets.len() == 0 {
        Seq::empty()
    } else {
        native_steps_each(targets.drop_last()) + native_target_steps(targets.last())
    }
}

/// Emptying the packaging directory, then the packages of each
/// architecture.
pub open spec fn native_steps(targets: Seq<LinuxTarget>) -> Seq<PackageStepView> {
    seq![PackageStepView::ResetDir(PACKAGING_DIR@)] + native_steps_each(targets)
}

fn native_target(t: &LinuxTarget) -> (r: Vec<PackageStep>)
    ensures
        step_views(r@) == native_target_steps(*t),
{
    let target_dir = join("target", t.triple);
    let mut r = build_deb(t, &target_dir);
    append_steps(&mut r, build_rpm(t, &target_dir));
    let release = join(target_dir.as_str(), "release");
    let out = join(RELEASE_DIR, t.output_dir);
    let deb = deb_filename(t.deb_arch);
    let rpm = rpm_filename(t.rpm_arch);
    let tail = vec![
        PackageStep::Copy { from: join(release.as_str(), deb.as_str()), to: join(out.as_str(), deb.as_str()) },
        PackageStep::Copy { from: join(release.as_str(), rpm.as_str()), to: join(out.as_str(), rpm.as_str()) },
    ];
    assert(step_views(tail@) =~= seq![
        PackageStepView::Copy {
            from: joined(joined(target_dir@, "release"@), deb_name(t.deb_arch@)),
            to: joined(joined(RELEASE_DIR@, t.output_dir@), deb_name(t.deb_arch@)),
        },
        PackageStepView::Copy {
            from: joined(joined(target_dir@, "release"@), rpm_name(t.rpm_arch@)),
            to: joined(joined(RELEASE_DIR@, t.output_dir@), rpm_name(t.rpm_arch@)),
        },
    ]);
    append_steps(&mut r, tail);
    r
}

fn build_native_packages(targets: &Vec<LinuxTarget>) -> (r: Vec<PackageStep>)
    ensures
        step_views(r@) == native_steps(targets@),
{
    let mut r: Vec<PackageStep> = vec![PackageStep::ResetDir(String::from_str(PACKAGING_DIR))];
    assert(step_views(r@) =~= seq![PackageStepView::ResetDir(PACKAGING_DIR@)]);
    let mut i: usize = 0;
    while i < targets.len()
        invariant
            i <= targets@.len(),
            step_views(r@) == seq![PackageStepView::ResetDir(PACKAGING_DIR@)] + native_steps_each(targets@.take(i as int)),
        decreases targets.len() - i,
    {
        append_steps(&mut r, native_target(&targets[i]));
        assert(targets@.take(i + 1).drop_last() =~= targets@.take(i as int));
        i = i + 1;
    }
    assert(targets@.take(targets@.len() as int) =~= targets@);
    r
}

proof fn contains_in_concat(a: Seq<PackageStepView>, b: Seq<PackageStepView>, x: PackageStepView)
    ensures
        a.contains(x) ==> (a + b).contains(x) && (b + a).contains(x),
{
    if a.contains(x) {
        let j = choose|j: int| 0 <= j < a.len() && a[j] == x;
        assert((a + b)[j] == x);
        assert((b + a)[b.len() + j] == x);
    }
}

proof fn native_steps_hold_each_target(ts: Seq<LinuxTarget>, k: int, x: PackageStepView)
    requires
        0 <= k < ts.len(),
        native_target_steps(ts[k]).contains(x),
    ensures
        native_steps_each(ts).contains(x),
    decreases ts.len(),
{
    let rest = ts.drop_last();
    if k == ts.len() - 1 {
        contains_in_concat(native_target_steps(ts.last()), native_steps_each(rest), x);
    } else {
        assert(rest[k] == ts[k]);
        native_steps_hold_each_target(rest, k, x);
        contains_in_concat(native_steps_each(rest), native_target_steps(ts.last()), x);
    }
}

/// In the Linux release plan, the Debian and RPM packages of each of the
/// three architectures install the binary built for that architecture.
pub proof fn linux_plan_packages_each_architecture_binary(skip_build: bool, k: int)
    requires
        0 <= k < linux_targets().len(),
    ensures
        ({
            let t = linux_targets()[k];
            let binary = joined(joined("target"@, t.triple@), "release/browsers"@);
            &&& linux_plan(skip_build).contains(PackageStepView::Copy {
                from: binary,
                to: joined(joined(PACKAGING_DIR@, "deb-"@ + t.deb_arch@), "usr/share/software.Browsers/bin/browsers"@),
            })
            &&& linux_plan(skip_build).contains(PackageStepView::Copy {
                from: binary,
                to: joined(joined(rpm_top(t), "tree"@), "usr/share/software.Browsers/bin/browsers"@),
            })
        }),
{
    let t = linux_targets()[k];
    linux_packages_install_their_own_binary(t);
    let binary = joined(joined("target"@, t.triple@), "release/browsers"@);
    let deb_copy = PackageStepView::Copy {
        from: binary,
        to: joined(joined(PACKAGING_DIR@, "deb-"@ + t.deb_arch@), "usr/share/software.Browsers/bin/browsers"@),
    };
    let rpm_copy = PackageStepView::Copy {
        from: binary,
        to: joined(joined(rpm_top(t), "tree"@), "usr/share/software.Browsers/bin/browsers"@),
    };
    let files = name_views(linux_archive_files());
    let front = (if skip_build { Seq::empty() } else { compile_steps(linux_targets()) })
        + binaries_steps(linux_targets())
        + bundle_steps()
        + archive_steps(RELEASE_DIR@, "browsers_linux.tar.gz"@, ArchiveCompression::Gzip, files)
        + archive_steps(RELEASE_DIR@, "browsers_linux.tar.xz"@, ArchiveCompression::Xz, files);
    let reset = seq![PackageStepView::ResetDir(PACKAGING_DIR@)];
    let tail = seq![
        PackageStepView::Copy {
            from: joined(joined(target_dir(t), "release"@), deb_name(t.deb_arch@)),
            to: joined(joined(RELEASE_DIR@, t.output_dir@), deb_name(t.deb_arch@)),
        },
        PackageStepView::Copy {
            from: joined(joined(target_dir(t), "release"@), rpm_name(t.rpm_arch@)),
            to: joined(joined(RELEASE_DIR@, t.output_dir@), rpm_name(t.rpm_arch@)),
        },
    ];
    assert(native_target_steps(t) == deb_steps(t) + rpm_steps(t) + tail);
    assert(linux_plan(skip_build) == front + native_steps(linux_targets()));
    assert(native_steps(linux_targets()) == reset + native_steps_each(linux_targets()));
    contains_in_concat(deb_steps(t), rpm_steps(t), deb_copy);
    contains_in_concat(rpm_steps(t), deb_steps(t), rpm_copy);
    contains_in_concat(deb_steps(t) + rpm_steps(t), tail, deb_copy);
    contains_in_concat(deb_steps(t) + rpm_steps(t), tail, rpm_copy);
    native_steps_hold_each_target(linux_targets(), k, deb_copy);
    native_steps_hold_each_target(linux_targets(), k, rpm_copy);
    contains_in_concat(native_steps_each(linux_targets()), reset, deb_copy);
    contains_in_concat(native_steps_each(linux_targets()), reset, rpm_copy);
    contains_in_concat(native_steps(linux_targets()), front, deb_copy);
    contains_in_concat(native_steps(linux_targets()), front, rpm_copy);
}

/// The Linux packaging plan: cross-compiling (unless skipped), the
/// binaries and bundle in the release directory, gzip and xz archives of
/// the bundle with checksums, then the Debian and RPM packages.
pub open spec fn linux_plan(skip_build: bool) -> Seq<PackageStepView> {
    let files = name_views(linux_archive_files());
    (if skip_build { Seq::empty() } else { compile_steps(linux_targets()) })
        + binaries_steps(linux_targets())
        + bundle_steps()
        + archive_steps(RELEASE_DIR@, "browsers_linux.tar.gz"@, ArchiveCompression::Gzip, files)
        + archive_steps(RELEASE_DIR@, "browsers_linux.tar.xz"@, ArchiveCompression::Xz, files)
        + native_steps(linux_targets())
}

/// The steps that build the Linux release.
pub fn package(skip_build: bool) -> (r: Vec<PackageStep>)
    ensures
        step_views(r@) == linux_plan(skip_build),
{
    let targets = targets();
    let files = archive_files();
    let mut r: Vec<PackageStep> = Vec::new();
    if !skip_build {
        append_steps(&mut r, compile(&targets));
    }
    assert(step_views(r@) =~= (if skip_build { Seq::empty() } else { compile_steps(linux_targets()) }));
    append_steps(&mut r, assemble_binaries(&targets));
    append_steps(&mut r, assemble_bundle());
    append_steps(&mut r, create_archive(RELEASE_DIR, "browsers_linux.tar.gz", ArchiveCompression::Gzip, files.as_slice()));
    append_steps(&mut r, create_archive(RELEASE_DIR, "browsers_linux.tar.xz", ArchiveCompression::Xz, files.as_slice()));
    append_steps(&mut r, build_native_packages(&targets));
    r
}

/// The steps that fill the Linux release directory: the binaries, then
/// the bundle.
pub open spec fn linux_assembly() -> Seq<PackageStepView> {
    binaries_steps(linux_targets()) + bundle_steps()
}

proof fn binary_archive_paths(k: int)
    requires
        0 <= k < 3,
    ensures
        joined(joined(RELEASE_DIR@, linux_targets()[k].output_dir@), "browsers"@)
            == joined(RELEASE_DIR@, linux_archive_files()[k]@),
{
    reveal_strlit("browsers");
    let out = linux_targets()[k].output_dir@;
    if k == 0 {
        reveal_strlit("x86_64");
        reveal_strlit("x86_64/browsers");
        assert(out + seq!['/'] + "browsers"@ =~= "x86_64/browsers"@);
    } else if k == 1 {
        reveal_strlit("aarch64");
        reveal_strlit("aarch64/browsers");
        assert(out + seq!['/'] + "browsers"@ =~= "aarch64/browsers"@);
    } else {
        reveal_strlit("armv7l");
        reveal_strlit("armv7l/browsers");
        assert(out + seq!['/'] + "browsers"@ =~= "armv7l/browsers"@);
    }
    assert(joined(joined(RELEASE_DIR@, out), "browsers"@) =~= joined(RELEASE_DIR@, out + seq!['/'] + "browsers"@));
}

/// Every file the Linux archives hold is copied into the release
/// directory when it is assembled, before the archives are made.
pub proof fn linux_archives_hold_assembled_files(i: int)
    requires
        0 <= i < linux_archive_files().len(),
    ensures
        exists|j: int| 0 <= j < linux_assembly().len()
            && copies_to(#[trigger] linux_assembly()[j], joined(RELEASE_DIR@, linux_archive_files()[i]@)),
{
    reveal_with_fuel(binary_copies, 4);
    reveal_with_fuel(icon_copies, 7);
    let a = linux_assembly();
    let path = joined(RELEASE_DIR@, linux_archive_files()[i]@);
    assert(binaries_steps(linux_targets()).len() == 4);
    assert(icon_copies(icon_sizes_spec(), RELEASE_DIR@).len() == 6);
    if i < 3 {
        binary_archive_paths(i);
        assert(copies_to(a[i + 1], path));
    } else if i == 3 {
        assert(copies_to(a[12], path));
    } else if i < 10 {
        icon_archive_path(RELEASE_DIR@, i - 4);
        assert(linux_archive_files()[i] == icon_archive_names()[i - 4]);
        assert(copies_to(a[i + 2], path));
    } else if i == 10 {
        assert(copies_to(a[13], path));
    } else if i == 11 {
        assert(copies_to(a[14], path));
    } else if i == 12 {
        assert(copies_to(a[15], path));
    } else if i == 13 {
        assert(copies_to(a[16], path));
    } else if i == 14 {
        assert(copies_to(a[4], path));
    } else {
        assert(copies_to(a[5], path));
    }
}

} // verus!

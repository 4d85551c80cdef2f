//! Release packaging: the plan of steps that builds each platform's
//! packages, and the computed parts those steps use (archive flags,
//! checksum files, icon and package file names, template rendering).
//!
//! A plan names files by their paths below the repository root, written
//! with `/`; running a plan means performing its steps in order and
//! stopping at the first one that fails.

pub mod linux;
pub mod macos;
pub mod windows;

use vstd::prelude::*;
use vstd::string::*;
use crate::text::{decimal, push_char, push_decimal};

verus! {

/// The icon sizes shipped, in pixels.
pub open spec fn icon_sizes_spec() -> Seq<u16> {
    seq![16u16, 32, 64, 128, 256, 512]
}

/// The icon sizes shipped, in pixels.
pub fn icon_sizes() -> (r: Vec<u16>)
    ensures
        r@ == icon_sizes_spec(),
{
    let r: Vec<u16> = vec![16, 32, 64, 128, 256, 512];
    assert(r@ =~= icon_sizes_spec());
    r
}

/// How a tar archive is compressed.
#[derive(Clone, Copy, Debug, PartialEq, Eq, Structural)]
pub enum ArchiveCompression {
    Gzip,
    Xz,
}

/// The `tar` option that creates an archive with a compression.
pub open spec fn tar_flag_of(compression: ArchiveCompression) -> Seq<char> {
    match compression {
        ArchiveCompression::Gzip => "-zcf"@,
        ArchiveCompression::Xz => "-Jcf"@,
    }
}

impl ArchiveCompression {
    /// The `tar` option that creates an archive with this compression.
    pub fn tar_flag(&self) -> (r: &'static str)
        ensures
            r@ == tar_flag_of(*self),
    {
        match self {
            ArchiveCompression::Gzip => "-zcf",
            ArchiveCompression::Xz => "-Jcf",
        }
    }
}

/// The path of the checksum file of `path`: the path with `.sha256`
/// appended.
pub fn checksum_path(path: &str) -> (r: String)
    ensures
        r@ == path@ + ".sha256"@,
{
    let mut r = String::from_str(path);
    r.append(".sha256");
    r
}

/// What the SHA-256 digest of `data` is (FIPS 180-4).
pub uninterp spec fn sha256_digest(data: Seq<u8>) -> Seq<u8>;

/// The SHA-256 digest of `data`, by `sha2::Sha256::digest`. Trusted: the
/// result is `sha256_digest(data@)` and has 32 bytes (the digest's fixed
/// output size); the digest's value is not stated here.
#[verifier::external_body]
fn sha256(data: &[u8]) -> (r: Vec<u8>)
    ensures
        r@ == sha256_digest(data@),
        r@.len() == 32,
{
    <sha2::Sha256 as sha2::Digest>::digest(data).to_vec()
}

/// The lower-case hexadecimal digit for `n < 16`.
pub open spec fn hex_digit(n: int) -> char {
    if n < 10 { crate::text::digit_char(n as nat) }
    else if n == 10 { 'a' }
    else if n == 11 { 'b' }
    else if n == 12 { 'c' }
    else if n == 13 { 'd' }
    else if n == 14 { 'e' }
    else { 'f' }
}

/// Lower-case hexadecimal rendering of bytes, two digits per byte.
pub open spec fn hex_lower(bytes: Seq<u8>) -> Seq<char>
    decreases bytes.len(),
{
    if bytes.len() == 0 {
        Seq::empty()
    } else {
        hex_lower(bytes.drop_last()) + seq![hex_digit(bytes.last() as int / 16), hex_digit(bytes.last() as int % 16)]
    }
}

fn hex_digit_char(n: u8) -> (c: char)
    requires
        n < 16,
    ensures
        c == hex_digit(n as int),
{
    if n < 10 {
        crate::text::digit_to_char(n as u64)
    } else if n == 10 {
        'a'
    } else if n == 11 {
        'b'
    } else if n == 12 {
        'c'
    } else if n == 13 {
        'd'
    } else if n == 14 {
        'e'
    } else {
        'f'
    }
}

/// The contents of the checksum file of `data`: its SHA-256 digest in
/// lower-case hexadecimal, then a newline.
pub fn checksum_text(data: &[u8]) -> (r: String)
    ensures
        r@ == hex_lower(sha256_digest(data@)) + seq!['\n'],
{
    let digest = sha256(data);
    let mut text = String::new();
    let mut i: usize = 0;
    while i < digest.len()
        invariant
            i <= digest@.len(),
            text@ == hex_lower(digest@.take(i as int)),
        decreases digest.len() - i,
    {
        let b = digest[i];
        push_char(&mut text, hex_digit_char(b / 16));
        push_char(&mut text, hex_digit_char(b % 16));
        assert(digest@.take(i + 1).drop_last() =~= digest@.take(i as int));
        assert(text@ =~= hex_lower(digest@.take(i + 1)));
        i = i + 1;
    }
    assert(digest@.take(digest@.len() as int) =~= digest@);
    push_char(&mut text, '\n');
    text
}

/// `icons/<size>x<size>/software.Browsers.png`.
pub open spec fn icon_file(size: nat) -> Seq<char> {
    "icons/"@ + decimal(size) + seq!['x'] + decimal(size) + "/software.Browsers.png"@
}

/// The path of the application icon of a size, below a resources
/// directory.
pub fn icon_file_path(size: u16) -> (r: String)
    ensures
        r@ == icon_file(size as nat),
{
    let mut r = String::from_str("icons/");
    push_decimal(&mut r, size as u64);
    push_char(&mut r, 'x');
    push_decimal(&mut r, size as u64);
    r.append("/software.Browsers.png");
    r
}

/// `browsers_<arch>.deb`.
pub open spec fn deb_name(deb_arch: Seq<char>) -> Seq<char> {
    "browsers_"@ + deb_arch + ".deb"@
}

/// `browsers.<arch>.rpm`.
pub open spec fn rpm_name(rpm_arch: Seq<char>) -> Seq<char> {
    "browsers."@ + rpm_arch + ".rpm"@
}

/// The file name of the Debian package for an architecture.
pub fn deb_filename(deb_arch: &str) -> (r: String)
    ensures
        r@ == deb_name(deb_arch@),
{
    let mut r = String::from_str("browsers_");
    r.append(deb_arch);
    r.append(".deb");
    r
}

/// The file name of the RPM package for an architecture.
pub fn rpm_filename(rpm_arch: &str) -> (r: String)
    ensures
        r@ == rpm_name(rpm_arch@),
{
    let mut r = String::from_str("browsers.");
    r.append(rpm_arch);
    r.append(".rpm");
    r
}

/// `text` with every non-overlapping occurrence of `from`, scanning from
/// the start, replaced by `to`; an empty `from` occurs before each
/// character and at the end.
pub open spec fn replaced(text: Seq<char>, from: Seq<char>, to: Seq<char>) -> Seq<char>
    decreases text.len(),
{
    if from.len() == 0 {
        if text.len() == 0 {
            to
        } else {
            to + seq![text[0]] + replaced(text.drop_first(), from, to)
        }
    } else if text.len() == 0 {
        text
    } else if from.len() <= text.len() && text.take(from.len() as int) == from {
        to + replaced(text.skip(from.len() as int), from, to)
    } else {
        seq![text[0]] + replaced(text.drop_first(), from, to)
    }
}

/// Appends characters to `out`.
fn push_chars(out: &mut Vec<char>, chars: &[char])
    ensures
        final(out)@ == old(out)@ + chars@,
{
    let ghost before = out@;
    let mut m: usize = 0;
    while m < chars.len()
        invariant
            m <= chars@.len(),
            out@ == before + chars@.take(m as int),
        decreases chars.len() - m,
    {
        out.push(chars[m]);
        m = m + 1;
        assert(out@ =~= before + chars@.take(m as int));
    }
    assert(chars@.take(chars@.len() as int) =~= chars@);
}

/// `text` with `to` before each character and at the end.
fn insert_everywhere(text: &[char], to: &[char]) -> (r: Vec<char>)
    ensures
        r@ == replaced(text@, Seq::empty(), to@),
{
    let mut out: Vec<char> = Vec::new();
    let mut i: usize = 0;
    assert(text@.skip(0) =~= text@);
    while i < text.len()
        invariant
            i <= text@.len(),
            out@ + replaced(text@.skip(i as int), Seq::empty(), to@) == replaced(text@, Seq::empty(), to@),
        decreases text.len() - i,
    {
        let ghost before = out@;
        let ghost rest = text@.skip(i as int);
        push_chars(&mut out, to);
        out.push(text[i]);
        assert(rest.drop_first() =~= text@.skip(i + 1));
        assert(out@ + replaced(text@.skip(i + 1), Seq::empty(), to@)
            =~= before + (to@ + seq![rest[0]] + replaced(rest.drop_first(), Seq::empty(), to@)));
        i = i + 1;
    }
    assert(text@.skip(i as int) =~= Seq::<char>::empty());
    push_chars(&mut out, to);
    out
}

/// `text` with every occurrence of `from` replaced by `to`, as
/// `str::replace` does.
pub fn replace_all(text: &[char], from: &[char], to: &[char]) -> (r: Vec<char>)
    ensures
        r@ == replaced(text@, from@, to@),
{
    if from.len() == 0 {
        assert(from@ =~= Seq::<char>::empty());
        return insert_everywhere(text, to);
    }
    let mut out: Vec<char> = Vec::new();
    let mut i: usize = 0;
    assert(text@.skip(0) =~= text@);
    while i < text.len()
        invariant
            i <= text@.len(),
            from@.len() > 0,
            out@ + replaced(text@.skip(i as int), from@, to@) == replaced(text@, from@, to@),
        decreases text.len() - i,
    {
        let ghost rest = text@.skip(i as int);
        let mut matches = from.len() <= text.len() - i;
        let mut k: usize = 0;
        while matches && k < from.len()
            invariant
                i <= text@.len(),
                k <= from@.len(),
                rest == text@.skip(i as int),
                rest.len() == text@.len() - i,
                matches ==> from@.len() <= rest.len() && forall|j: int| 0 <= j < k ==> rest[j] == from@[j],
                !matches ==> !(from@.len() <= rest.len() && rest.take(from@.len() as int) == from@),
            decreases from.len() - k,
        {
            let n = text.len();
            assert(i + k < n);
            if text[i + k] != from[k] {
                matches = false;
                assert(rest[k as int] == text@[i + k]);
                assert(rest.take(from@.len() as int)[k as int] != from@[k as int]);
            }
            k = k + 1;
        }
        if matches {
            assert(rest.take(from@.len() as int) =~= from@);
            let ghost before = out@;
            push_chars(&mut out, to);
            assert(rest.skip(from@.len() as int) =~= text@.skip(i + from@.len()));
            assert(out@ + replaced(text@.skip(i + from@.len()), from@, to@)
                =~= before + (to@ + replaced(rest.skip(from@.len() as int), from@, to@)));
            i = i + from.len();
        } else {
            let ghost before = out@;
            out.push(text[i]);
            assert(rest.drop_first() =~= text@.skip(i + 1));
            assert(rest[0] == text@[i as int]);
            assert(out@ + replaced(text@.skip(i + 1), from@, to@)
                =~= before + (seq![rest[0]] + replaced(rest.drop_first(), from@, to@)));
            i = i + 1;
        }
    }
    assert(text@.skip(i as int) =~= Seq::<char>::empty());
    assert(out@ + Seq::<char>::empty() =~= out@);
    out
}

/// A template with each placeholder replaced, in the given order.
pub open spec fn rendered(text: Seq<char>, replacements: Seq<(Seq<char>, Seq<char>)>) -> Seq<char>
    decreases replacements.len(),
{
    if replacements.len() == 0 {
        text
    } else {
        replaced(
            rendered(text, replacements.drop_last()),
            replacements.last().0,
            replacements.last().1,
        )
    }
}

/// A template with each placeholder replaced by its value, one
/// replacement after the other.
pub fn render_template_text(text: &str, replacements: &Vec<(String, String)>) -> (r: String)
    ensures
        r@ == rendered(text@, replacements@.map_values(|p: (String, String)| (p.0@, p.1@))),
{
    let ghost pairs = replacements@.map_values(|p: (String, String)| (p.0@, p.1@));
    let mut contents = crate::text::chars_of(text);
    let mut i: usize = 0;
    while i < replacements.len()
        invariant
            i <= replacements@.len(),
            pairs == replacements@.map_values(|p: (String, String)| (p.0@, p.1@)),
            contents@ == rendered(text@, pairs.take(i as int)),
        decreases replacements.len() - i,
    {
        let from = crate::text::chars_of(replacements[i].0.as_str());
        let to = crate::text::chars_of(replacements[i].1.as_str());
        contents = replace_all(contents.as_slice(), from.as_slice(), to.as_slice());
        assert(pairs.take(i + 1).drop_last() =~= pairs.take(i as int));
        assert(pairs.take(i + 1).last() == pairs[i as int]);
        i = i + 1;
    }
    assert(pairs.take(replacements@.len() as int) =~= pairs);
    crate::text::string_of(contents.as_slice())
}

// ---------------------------------------------------------------------
// Packaging plans
// ---------------------------------------------------------------------

/// The platforms packages are built for.
#[derive(Clone, Copy, Debug, PartialEq, Eq, Structural)]
pub enum Platform {
    Linux,
    Macos,
    Windows,
}

/// An argument of a packaging command.
pub enum CommandArg {
    /// Passed as written.
    Text(String),
    /// A path below the repository root, passed as its full path.
    Path(String),
    /// Text followed directly by the full path of a path below the
    /// repository root.
    TextWithPath(String, String),
}

/// Plain view of [`CommandArg`].
pub enum CommandArgView {
    Text(Seq<char>),
    Path(Seq<char>),
    TextWithPath(Seq<char>, Seq<char>),
}

impl View for CommandArg {
    type V = CommandArgView;

    open spec fn view(&self) -> CommandArgView {
        match self {
            CommandArg::Text(t) => CommandArgView::Text(t@),
            CommandArg::Path(p) => CommandArgView::Path(p@),
            CommandArg::TextWithPath(t, p) => CommandArgView::TextWithPath(t@, p@),
        }
    }
}

/// The views of command arguments.
pub open spec fn arg_views(args: Seq<CommandArg>) -> Seq<CommandArgView> {
    args.map_values(|a: CommandArg| a@)
}

/// The views of pairs of strings.
pub open spec fn pair_views(pairs: Seq<(String, String)>) -> Seq<(Seq<char>, Seq<char>)> {
    pairs.map_values(|p: (String, String)| (p.0@, p.1@))
}

/// A program run while packaging.
pub struct PackageCommand {
    pub program: String,
    pub args: Vec<CommandArg>,
    /// Environment variables set for the program.
    pub env: Vec<(String, String)>,
    /// The working directory, below the repository root (empty for the
    /// root itself).
    pub dir: String,
}

/// Plain view of [`PackageCommand`].
pub struct PackageCommandView {
    pub program: Seq<char>,
    pub args: Seq<CommandArgView>,
    pub env: Seq<(Seq<char>, Seq<char>)>,
    pub dir: Seq<char>,
}

impl View for PackageCommand {
    type V = PackageCommandView;

    open spec fn view(&self) -> PackageCommandView {
        PackageCommandView {
            program: self.program@,
            args: arg_views(self.args@),
            env: pair_views(self.env@),
            dir: self.dir@,
        }
    }
}

/// One step of a packaging plan; every path is below the repository root.
pub enum PackageStep {
    /// Run a program; it must succeed.
    Run(PackageCommand),
    /// Run a program that must succeed, and write what it prints to a file.
    RunInto(PackageCommand, String),
    /// Copy a file, creating the destination's directory.
    Copy { from: String, to: String },
    /// Copy a directory tree.
    CopyDir { from: String, to: String },
    /// Remove a directory if it exists, then create it empty.
    ResetDir(String),
    /// Create a directory and its parents.
    CreateDir(String),
    /// Remove a directory tree if it exists.
    RemoveDir(String),
    /// Remove a file if it exists.
    RemoveFile(String),
    /// Write `destination` as `source` with each placeholder replaced by
    /// its value, in order.
    RenderTemplate { source: String, destination: String, replacements: Vec<(String, String)> },
    /// Create a symbolic link at `link` pointing to `target`, written as
    /// given.
    Symlink { target: String, link: String },
    /// Write the checksum file of a file beside it.
    WriteChecksum(String),
    /// Make a file executable.
    MakeExecutable(String),
}

/// Plain view of [`PackageStep`].
pub enum PackageStepView {
    Run(PackageCommandView),
    RunInto(PackageCommandView, Seq<char>),
    Copy { from: Seq<char>, to: Seq<char> },
    CopyDir { from: Seq<char>, to: Seq<char> },
    ResetDir(Seq<char>),
    CreateDir(Seq<char>),
    RemoveDir(Seq<char>),
    RemoveFile(Seq<char>),
    RenderTemplate { source: Seq<char>, destination: Seq<char>, replacements: Seq<(Seq<char>, Seq<char>)> },
    Symlink { target: Seq<char>, link: Seq<char> },
    WriteChecksum(Seq<char>),
    MakeExecutable(Seq<char>),
}

impl View for PackageStep {
    type V = PackageStepView;

    open spec fn view(&self) -> PackageStepView {
        match self {
            PackageStep::Run(c) => PackageStepView::Run(c@),
            PackageStep::RunInto(c, f) => PackageStepView::RunInto(c@, f@),
            PackageStep::Copy { from, to } => PackageStepView::Copy { from: from@, to: to@ },
            PackageStep::CopyDir { from, to } => PackageStepView::CopyDir { from: from@, to: to@ },
            PackageStep::ResetDir(d) => PackageStepView::ResetDir(d@),
            PackageStep::CreateDir(d) => PackageStepView::CreateDir(d@),
            PackageStep::RemoveDir(d) => PackageStepView::RemoveDir(d@),
            PackageStep::RemoveFile(f) => PackageStepView::RemoveFile(f@),
            PackageStep::RenderTemplate { source, destination, replacements } => PackageStepView::RenderTemplate {
                source: source@,
                destination: destination@,
                replacements: pair_views(replacements@),
            },
            PackageStep::Symlink { target, link } => PackageStepView::Symlink { target: target@, link: link@ },
            PackageStep::WriteChecksum(f) => PackageStepView::WriteChecksum(f@),
            PackageStep::MakeExecutable(f) => PackageStepView::MakeExecutable(f@),
        }
    }
}

/// The views of a plan's steps.
pub open spec fn step_views(steps: Seq<PackageStep>) -> Seq<PackageStepView> {
    steps.map_values(|s: PackageStep| s@)
}

/// Whether a step copies a file to `path`.
pub open spec fn copies_to(step: PackageStepView, path: Seq<char>) -> bool {
    step matches PackageStepView::Copy { to, .. } && to == path
}

/// A path below a directory: `base/rel`.
pub open spec fn joined(base: Seq<char>, rel: Seq<char>) -> Seq<char> {
    base + seq!['/'] + rel
}

/// The path `base/rel`.
pub fn join(base: &str, rel: &str) -> (r: String)
    ensures
        r@ == joined(base@, rel@),
{
    let mut r = String::from_str(base);
    push_char(&mut r, '/');
    r.append(rel);
    r
}

/// An argument passed as written.
pub fn text_arg(text: &str) -> (r: CommandArg)
    ensures
        r@ == CommandArgView::Text(text@),
{
    CommandArg::Text(String::from_str(text))
}

/// A command run in the repository root with no extra environment.
pub open spec fn command_in_root(program: Seq<char>, args: Seq<CommandArgView>) -> PackageCommandView {
    PackageCommandView { program, args, env: Seq::empty(), dir: Seq::empty() }
}

/// A command run in the repository root with no extra environment.
pub fn root_command(program: &str, args: Vec<CommandArg>) -> (r: PackageCommand)
    ensures
        r@ == command_in_root(program@, arg_views(args@)),
{
    let env: Vec<(String, String)> = Vec::new();
    let r = PackageCommand { program: String::from_str(program), args, env, dir: String::new() };
    assert(pair_views(r.env@) =~= Seq::<(Seq<char>, Seq<char>)>::empty());
    r
}

/// The steps appended to a plan: the plan followed by the steps.
pub fn append_steps(plan: &mut Vec<PackageStep>, steps: Vec<PackageStep>)
    ensures
        step_views(final(plan)@) == step_views(old(plan)@) + step_views(steps@),
{
    let mut steps = steps;
    let ghost before = plan@;
    let ghost added = steps@;
    plan.append(&mut steps);
    assert(step_views(plan@) =~= step_views(before) + step_views(added));
}

/// The names of files as plain text.
pub open spec fn name_views(names: Seq<&str>) -> Seq<Seq<char>> {
    names.map_values(|n: &str| n@)
}

/// The names as command arguments passed as written.
pub open spec fn text_args(names: Seq<Seq<char>>) -> Seq<CommandArgView> {
    names.map_values(|n: Seq<char>| CommandArgView::Text(n))
}

/// Command arguments passed as written, one per name.
pub fn text_args_of(names: &[&str]) -> (r: Vec<CommandArg>)
    ensures
        arg_views(r@) == text_args(name_views(names@)),
{
    let mut r: Vec<CommandArg> = Vec::new();
    let mut i: usize = 0;
    while i < names.len()
        invariant
            i <= names@.len(),
            arg_views(r@) == text_args(name_views(names@.take(i as int))),
        decreases names.len() - i,
    {
        let ghost before = r@;
        let arg = text_arg(names[i]);
        let ghost added = arg@;
        r.push(arg);
        assert(arg_views(r@) =~= arg_views(before).push(added));
        assert(text_args(name_views(names@.take(i + 1))) =~= text_args(name_views(names@.take(i as int))).push(
            CommandArgView::Text(names@[i as int]@),
        ));
        i = i + 1;
    }
    assert(names@.take(names@.len() as int) =~= names@);
    r
}

/// The steps that make a compressed tar archive of files of a directory,
/// with its checksum file: remove any old archive and checksum, run `tar`
/// in the directory, then write the checksum.
pub open spec fn archive_steps(
    dir: Seq<char>,
    filename: Seq<char>,
    compression: ArchiveCompression,
    files: Seq<Seq<char>>,
) -> Seq<PackageStepView> {
    let archive = joined(dir, filename);
    seq![
        PackageStepView::RemoveFile(archive),
        PackageStepView::RemoveFile(archive + ".sha256"@),
        PackageStepView::Run(PackageCommandView {
            program: "tar"@,
            args: seq![CommandArgView::Text(tar_flag_of(compression)), CommandArgView::Text(filename)]
                + text_args(files),
            env: Seq::empty(),
            dir,
        }),
        PackageStepView::WriteChecksum(archive),
    ]
}

/// The steps that make an archive of `files` of `dir`.
pub fn create_archive(dir: &str, filename: &str, compression: ArchiveCompression, files: &[&str]) -> (r: Vec<PackageStep>)
    ensures
        step_views(r@) == archive_steps(dir@, filename@, compression, name_views(files@)),
{
    let archive = join(dir, filename);
    let checksum = checksum_path(archive.as_str());
    let mut args: Vec<CommandArg> = Vec::new();
    args.push(text_arg(compression.tar_flag()));
    args.push(text_arg(filename));
    let ghost head = args@;
    assert(arg_views(head) =~= seq![CommandArgView::Text(tar_flag_of(compression)), CommandArgView::Text(filename@)]);
    let mut rest = text_args_of(files);
    let ghost tail = rest@;
    args.append(&mut rest);
    assert(arg_views(args@) =~= arg_views(head) + arg_views(tail));
    let env: Vec<(String, String)> = Vec::new();
    let tar = PackageCommand { program: String::from_str("tar"), args, env, dir: String::from_str(dir) };
    assert(pair_views(tar.env@) =~= Seq::<(Seq<char>, Seq<char>)>::empty());
    let r = vec![
        PackageStep::RemoveFile(archive.clone()),
        PackageStep::RemoveFile(checksum),
        PackageStep::Run(tar),
        PackageStep::WriteChecksum(archive),
    ];
    assert(step_views(r@) =~= archive_steps(dir@, filename@, compression, name_views(files@)));
    r
}

/// `cargo build`-style runs: `<program> build --target <triple> --release`
/// in the repository root for each triple, with the given environment.
pub open spec fn build_runs(program: Seq<char>, triples: Seq<&str>, env: Seq<(Seq<char>, Seq<char>)>) -> Seq<PackageStepView>
    decreases triples.len(),
{
    if triples.len() == 0 {
        Seq::empty()
    } else {
        build_runs(program, triples.drop_last(), env).push(PackageStepView::Run(PackageCommandView {
            program,
            args: seq![
                CommandArgView::Text("build"@),
                CommandArgView::Text("--target"@),
                CommandArgView::Text(triples.last()@),
                CommandArgView::Text("--release"@),
            ],
            env,
            dir: Seq::empty(),
        }))
    }
}

/// The build runs for each triple.
pub fn build_steps(program: &str, triples: &[&str], env: &Vec<(String, String)>) -> (r: Vec<PackageStep>)
    ensures
        step_views(r@) == build_runs(program@, triples@, pair_views(env@)),
{
    let mut r: Vec<PackageStep> = Vec::new();
    let mut i: usize = 0;
    while i < triples.len()
        invariant
            i <= triples@.len(),
            step_views(r@) == build_runs(program@, triples@.take(i as int), pair_views(env@)),
        decreases triples.len() - i,
    {
        let args = vec![text_arg("build"), text_arg("--target"), text_arg(triples[i]), text_arg("--release")];
        let mut vars: Vec<(String, String)> = Vec::new();
        let mut k: usize = 0;
        while k < env.len()
            invariant
                k <= env@.len(),
                pair_views(vars@) == pair_views(env@.take(k as int)),
            decreases env.len() - k,
        {
            let ghost before = vars@;
            let name = env[k].0.clone();
            let value = env[k].1.clone();
            assert(name@ == env@[k as int].0@ && value@ == env@[k as int].1@);
            vars.push((name, value));
            assert(pair_views(vars@) =~= pair_views(before).push((env@[k as int].0@, env@[k as int].1@)));
            assert(pair_views(env@.take(k + 1)) =~= pair_views(env@.take(k as int)).push(
                (env@[k as int].0@, env@[k as int].1@),
            ));
            k = k + 1;
        }
        assert(env@.take(env@.len() as int) =~= env@);
        let command = PackageCommand { program: String::from_str(program), args, env: vars, dir: String::new() };
        assert(arg_views(command.args@) =~= seq![
            CommandArgView::Text("build"@),
            CommandArgView::Text("--target"@),
            CommandArgView::Text(triples@[i as int]@),
            CommandArgView::Text("--release"@),
        ]);
        let ghost before = r@;
        let step = PackageStep::Run(command);
        let ghost added = step@;
        r.push(step);
        assert(triples@.take(i + 1).drop_last() =~= triples@.take(i as int));
        assert(step_views(r@) =~= step_views(before).push(added));
        i = i + 1;
    }
    assert(triples@.take(triples@.len() as int) =~= triples@);
    r
}

/// Copies of the application icons into `<dir>/resources/icons/...`.
pub open spec fn icon_copies(sizes: Seq<u16>, dir: Seq<char>) -> Seq<PackageStepView>
    decreases sizes.len(),
{
    if sizes.len() == 0 {
        Seq::empty()
    } else {
        let icon = icon_file(sizes.last() as nat);
        icon_copies(sizes.drop_last(), dir).push(PackageStepView::Copy {
            from: joined("resources"@, icon),
            to: joined(joined(dir, "resources"@), icon),
        })
    }
}

/// The icons as they are named in the release archives.
pub open spec fn icon_archive_names() -> Seq<&'static str> {
    seq![
        "resources/icons/16x16/software.Browsers.png",
        "resources/icons/32x32/software.Browsers.png",
        "resources/icons/64x64/software.Browsers.png",
        "resources/icons/128x128/software.Browsers.png",
        "resources/icons/256x256/software.Browsers.png",
        "resources/icons/512x512/software.Browsers.png",
    ]
}

/// The icon copies of a release directory land where the archives name
/// the icons.
pub proof fn icon_archive_path(dir: Seq<char>, k: int)
    requires
        0 <= k < 6,
    ensures
        joined(joined(dir, "resources"@), icon_file(icon_sizes_spec()[k] as nat))
            == joined(dir, icon_archive_names()[k]@),
{
    reveal_with_fuel(decimal, 4);
    reveal_strlit("resources");
    reveal_strlit("icons/");
    reveal_strlit("/software.Browsers.png");
    let icon = icon_file(icon_sizes_spec()[k] as nat);
    if k == 0 {
        reveal_strlit("resources/icons/16x16/software.Browsers.png");
    } else if k == 1 {
        reveal_strlit("resources/icons/32x32/software.Browsers.png");
    } else if k == 2 {
        reveal_strlit("resources/icons/64x64/software.Browsers.png");
    } else if k == 3 {
        reveal_strlit("resources/icons/128x128/software.Browsers.png");
    } else if k == 4 {
        reveal_strlit("resources/icons/256x256/software.Browsers.png");
    } else {
        reveal_strlit("resources/icons/512x512/software.Browsers.png");
    }
    assert("resources"@ + seq!['/'] + icon =~= icon_archive_names()[k]@);
    assert(joined(joined(dir, "resources"@), icon) =~= joined(dir, "resources"@ + seq!['/'] + icon));
}

/// The icon copies into a release directory.
pub fn icon_copy_steps(dir: &str) -> (r: Vec<PackageStep>)
    ensures
        step_views(r@) == icon_copies(icon_sizes_spec(), dir@),
{
    let sizes = icon_sizes();
    let resources = join(dir, "resources");
    let mut r: Vec<PackageStep> = Vec::new();
    let mut i: usize = 0;
    while i < sizes.len()
        invariant
            i <= sizes@.len(),
            sizes@ == icon_sizes_spec(),
            resources@ == joined(dir@, "resources"@),
            step_views(r@) == icon_copies(sizes@.take(i as int), dir@),
        decreases sizes.len() - i,
    {
        let icon = icon_file_path(sizes[i]);
        let ghost before = r@;
        let step = PackageStep::Copy { from: join("resources", icon.as_str()), to: join(resources.as_str(), icon.as_str()) };
        let ghost added = step@;
        r.push(step);
        assert(sizes@.take(i + 1).drop_last() =~= sizes@.take(i as int));
        assert(step_views(r@) =~= step_views(before).push(added));
        i = i + 1;
    }
    assert(sizes@.take(sizes@.len() as int) =~= sizes@);
    r
}

/// The packaging plan for a platform.
pub open spec fn platform_plan(platform: Platform, skip_build: bool) -> Seq<PackageStepView> {
    match platform {
        Platform::Linux => linux::linux_plan(skip_build),
        Platform::Macos => macos::macos_plan(skip_build),
        Platform::Windows => windows::windows_plan(skip_build),
    }
}

/// The steps that build the release packages of a platform (without
/// compiling first when `skip_build` is set).
pub fn run(platform: Platform, skip_build: bool) -> (r: Vec<PackageStep>)
    ensures
        step_views(r@) == platform_plan(platform, skip_build),
{
    match platform {
        Platform::Linux => linux::package(skip_build),
        Platform::Macos => macos::package(skip_build),
        Platform::Windows => windows::package(skip_build),
    }
}

} // verus!

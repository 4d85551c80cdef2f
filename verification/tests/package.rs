use browsers::xtask::package::{
    checksum_path, checksum_text, deb_filename, icon_file_path, icon_sizes, render_template_text,
    replace_all, rpm_filename, ArchiveCompression,
};

#[test]
fn tar_flags_pick_the_compression() {
    assert_eq!(ArchiveCompression::Gzip.tar_flag(), "-zcf");
    assert_eq!(ArchiveCompression::Xz.tar_flag(), "-Jcf");
}

#[test]
fn checksum_file_sits_beside_the_archive() {
    assert_eq!(checksum_path("dist/browsers.tar.gz"), "dist/browsers.tar.gz.sha256");
}

#[test]
fn checksum_of_nothing() {
    assert_eq!(
        checksum_text(b""),
        "e3b0c44298fc1c149afbf4c8996fb92427ae41e4649b934ca495991b7852b855\n"
    );
}

#[test]
fn checksum_of_abc() {
    assert_eq!(
        checksum_text(b"abc"),
        "ba7816bf8f01cfea414140de5dae2223b00361a396177a9cb410ff61f20015ad\n"
    );
}

#[test]
fn icon_sizes_and_paths() {
    assert_eq!(icon_sizes(), vec![16, 32, 64, 128, 256, 512]);
    assert_eq!(icon_file_path(16), "icons/16x16/software.Browsers.png");
    assert_eq!(icon_file_path(512), "icons/512x512/software.Browsers.png");
}

#[test]
fn package_file_names() {
    assert_eq!(deb_filename("amd64"), "browsers_amd64.deb");
    assert_eq!(rpm_filename("x86_64"), "browsers.x86_64.rpm");
}

#[test]
fn replace_all_replaces_every_occurrence() {
    let text: Vec<char> = "aXbXXc".chars().collect();
    let from: Vec<char> = "X".chars().collect();
    let to: Vec<char> = "yz".chars().collect();
    let r: String = replace_all(&text, &from, &to).into_iter().collect();
    assert_eq!(r, "ayzbyzyzc");
}

#[test]
fn replace_all_does_not_overlap() {
    let text: Vec<char> = "aaa".chars().collect();
    let from: Vec<char> = "aa".chars().collect();
    let to: Vec<char> = "b".chars().collect();
    let r: String = replace_all(&text, &from, &to).into_iter().collect();
    assert_eq!(r, "ba");
}

#[test]
fn templates_are_rendered_in_order() {
    let replacements = vec![
        ("{{VERSION}}".to_string(), "2026.8.1400".to_string()),
        ("{{ARCH}}".to_string(), "amd64".to_string()),
    ];
    assert_eq!(
        render_template_text("Version: {{VERSION}}\nArchitecture: {{ARCH}}\n{{VERSION}}", &replacements),
        "Version: 2026.8.1400\nArchitecture: amd64\n2026.8.1400"
    );
    let chained = vec![("A".to_string(), "B".to_string()), ("B".to_string(), "C".to_string())];
    assert_eq!(render_template_text("AB", &chained), "CC");
    assert_eq!(render_template_text("plain", &Vec::new()), "plain");
}

#[test]
fn empty_pattern_goes_between_every_character() {
    let text: Vec<char> = "ab€".chars().collect();
    let to: Vec<char> = "-".chars().collect();
    let r: String = replace_all(&text, &[], &to).into_iter().collect();
    assert_eq!(r, "ab€".replace("", "-"));
    assert_eq!(r, "-a-b-€-");
    let empty: Vec<char> = Vec::new();
    let r: String = replace_all(&empty, &[], &to).into_iter().collect();
    assert_eq!(r, "-");
}

#[test]
fn templates_with_an_empty_placeholder_follow_str_replace() {
    let replacements = vec![(String::new(), "|".to_string())];
    assert_eq!(render_template_text("xy", &replacements), "xy".replace("", "|"));
}

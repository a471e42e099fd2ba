use snowcone::backends::apk::{parse_info, parse_list, parse_search, spec, split_pkgver};
use snowcone::package::InstallState;
use snowcone::request::PackageRequest;

#[test]
fn splits_pkgver_strings() {
    assert_eq!(
        split_pkgver("zlib-1.3.1-r1"),
        ("zlib".to_string(), Some("1.3.1-r1".to_string()))
    );
    assert_eq!(
        split_pkgver("py3-requests-2.31.0-r0"),
        ("py3-requests".to_string(), Some("2.31.0-r0".to_string()))
    );
    assert_eq!(split_pkgver("busybox"), ("busybox".to_string(), None));
}

#[test]
fn parses_installed_list_lines() {
    let stdout = "\
musl-1.2.5-r0 x86_64 {musl} (MIT) [installed]
zlib-1.3.1-r1 x86_64 {zlib} (Zlib) [installed]
";
    let packages = parse_list(stdout);
    assert_eq!(packages.len(), 2);
    assert_eq!(packages[1].name, "zlib");
    assert_eq!(packages[1].version.as_deref(), Some("1.3.1-r1"));
    assert_eq!(packages[1].architecture.as_deref(), Some("x86_64"));
    assert_eq!(packages[1].origin.as_deref(), Some("zlib"));
    assert_eq!(packages[1].license.as_deref(), Some("Zlib"));
    assert_eq!(packages[1].state, InstallState::Installed);
}

#[test]
fn parses_upgradable_list_lines() {
    let stdout = "busybox-1.36.1-r7 x86_64 {busybox} (GPL-2.0-only) \
[upgradable from: busybox-1.36.1-r5]\n";
    let packages = parse_list(stdout);
    assert_eq!(packages.len(), 1);
    assert_eq!(packages[0].name, "busybox");
    assert_eq!(packages[0].version.as_deref(), Some("1.36.1-r5"));
    assert_eq!(packages[0].latest_version.as_deref(), Some("1.36.1-r7"));
    assert_eq!(packages[0].state, InstallState::Upgradable);
}

#[test]
fn parses_spaced_license_and_bare_lines() {
    let packages = parse_list("ripgrep-14.1.0-r0 x86_64 {ripgrep} (MIT UNLICENSE)\n");
    assert_eq!(packages.len(), 1);
    assert_eq!(packages[0].license.as_deref(), Some("MIT UNLICENSE"));
    assert_eq!(packages[0].state, InstallState::Available);
}

#[test]
fn parses_search_entries() {
    let stdout = "\
ripgrep-14.1.0-r0 - recursively search directories for a regex pattern
ripgrep-doc-14.1.0-r0 - recursively search directories for a regex pattern (documentation)
";
    let packages = parse_search(stdout);
    assert_eq!(packages.len(), 2);
    assert_eq!(packages[0].name, "ripgrep");
    assert_eq!(packages[0].version.as_deref(), Some("14.1.0-r0"));
    assert_eq!(
        packages[0].description.as_deref(),
        Some("recursively search directories for a regex pattern")
    );
    assert_eq!(packages[1].name, "ripgrep-doc");
    assert_eq!(packages[1].state, InstallState::Available);
}

#[test]
fn parses_info_sections() {
    let stdout = "\
zlib-1.3.1-r1 description:
A compression/decompression Library

zlib-1.3.1-r1 webpage:
https://zlib.net/

zlib-1.3.1-r1 depends on:
so:libc.musl-x86_64.so.1
";
    let package = parse_info(stdout).unwrap();
    assert_eq!(package.name, "zlib");
    assert_eq!(package.version.as_deref(), Some("1.3.1-r1"));
    assert_eq!(
        package.description.as_deref(),
        Some("A compression/decompression Library")
    );
    assert_eq!(package.homepage.as_deref(), Some("https://zlib.net/"));
    assert_eq!(
        package.dependencies,
        Some(vec!["so:libc.musl-x86_64.so.1".to_string()])
    );
}

#[test]
fn formats_version_pins() {
    assert_eq!(
        spec(&PackageRequest::parse("zlib@1.3.1-r1")),
        "zlib=1.3.1-r1"
    );
    assert_eq!(spec(&PackageRequest::parse("zlib")), "zlib");
}

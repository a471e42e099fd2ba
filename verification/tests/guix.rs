use snowcone::backends::guix::{outdated, parse_columns, parse_records, spec, version_newer};
use snowcone::package::InstallState;
use snowcone::request::PackageRequest;

#[test]
fn parses_search_records() {
    let stdout = "\
name: ripgrep
version: 14.1.0
outputs: out
systems: x86_64-linux i686-linux
dependencies: rust-bstr@1.6.0 rust-grep@0.2.12
location: gnu/packages/rust-apps.scm:212:2
homepage: https://github.com/BurntSushi/ripgrep
license: Unlicense, Expat
synopsis: Line-oriented search tool that respects your gitignore and
+ searches compressed files
description: ripgrep is a line-oriented search tool.
relevance: 20

name: grep
version: 3.11
homepage: https://www.gnu.org/software/grep/
license: GPL 3+
synopsis: Print lines matching a pattern
relevance: 10
";
    let packages = parse_records(stdout);
    assert_eq!(packages.len(), 2);
    assert_eq!(packages[0].name, "ripgrep");
    assert_eq!(packages[0].version.as_deref(), Some("14.1.0"));
    assert_eq!(
        packages[0].description.as_deref(),
        Some("Line-oriented search tool that respects your gitignore and searches compressed files")
    );
    assert_eq!(packages[0].license.as_deref(), Some("Unlicense, Expat"));
    assert_eq!(
        packages[0].dependencies,
        Some(vec!["rust-bstr".to_string(), "rust-grep".to_string()])
    );
    assert_eq!(packages[1].name, "grep");
    assert_eq!(packages[1].state, InstallState::Unknown);
}

#[test]
fn parses_tab_separated_columns() {
    let stdout = "\
ripgrep\t14.1.0\tout\t/gnu/store/abc-ripgrep-14.1.0
hello\t2.12.1\tout\t/gnu/store/def-hello-2.12.1
";
    let columns = parse_columns(stdout);
    assert_eq!(columns.len(), 2);
    assert_eq!(columns[0], ("ripgrep".to_string(), "14.1.0".to_string()));
}

#[test]
fn compares_versions() {
    assert!(version_newer("14.1.0", "13.0.0"));
    assert!(version_newer("1.10", "1.9"));
    assert!(!version_newer("1.9", "1.10"));
    assert!(version_newer("2.12.1", "2.12"));
    assert!(!version_newer("14.1.0", "14.1.0"));
}

#[test]
fn diffs_installed_against_available() {
    let installed = vec![
        ("ripgrep".to_string(), "13.0.0".to_string()),
        ("hello".to_string(), "2.12.1".to_string()),
    ];
    let available = vec![
        ("ripgrep".to_string(), "14.1.0".to_string()),
        ("ripgrep".to_string(), "12.1.1".to_string()),
        ("hello".to_string(), "2.12.1".to_string()),
    ];
    let packages = outdated(&installed, &available);
    assert_eq!(packages.len(), 1);
    assert_eq!(packages[0].name, "ripgrep");
    assert_eq!(packages[0].version.as_deref(), Some("13.0.0"));
    assert_eq!(packages[0].latest_version.as_deref(), Some("14.1.0"));
    assert_eq!(packages[0].state, InstallState::Upgradable);
}

#[test]
fn guix_formats_version_pins() {
    assert_eq!(spec(&PackageRequest::parse("gcc@10.3.0")), "gcc@10.3.0");
    assert_eq!(spec(&PackageRequest::parse("ripgrep")), "ripgrep");
}

use snowcone::backends::aptitude::{parse_installed, parse_outdated, parse_search, parse_show, spec};
use snowcone::package::{InstallState, Package};
use snowcone::request::PackageRequest;

#[test]
fn parses_installed_lines() {
    let stdout =
        "bash 5.2.21-2 GNU Bourne Again SHell\nripgrep 14.1.0-1 line-oriented search tool\n";
    let packages = parse_installed(stdout);
    assert_eq!(packages.len(), 2);
    assert_eq!(packages[1].name(), "ripgrep");
    assert_eq!(packages[1].version(), Some("14.1.0-1"));
    assert_eq!(packages[1].description(), Some("line-oriented search tool"));
    assert_eq!(packages[1].state(), InstallState::Installed);
}

#[test]
fn parses_search_lines_with_state_flag() {
    let stdout = "i ripgrep 14.1.0-1 line-oriented search tool\np fd-find 9.0.0-1 simple, fast alternative to find\n";
    let packages = parse_search(stdout);
    assert_eq!(packages.len(), 2);
    assert_eq!(packages[0].state(), InstallState::Installed);
    assert_eq!(packages[1].state(), InstallState::Available);
    assert_eq!(packages[1].name(), "fd-find");
}

#[test]
fn parses_outdated_lines() {
    let stdout = "bash 5.2.21-2 5.2.21-3 GNU Bourne Again SHell\n";
    let packages = parse_outdated(stdout);
    assert_eq!(packages.len(), 1);
    assert_eq!(packages[0].version(), Some("5.2.21-2"));
    assert_eq!(packages[0].latest_version(), Some("5.2.21-3"));
    assert_eq!(packages[0].state(), InstallState::Upgradable);
}

#[test]
fn parses_show_output() {
    let stdout = "\
Package: ripgrep
Version: 14.1.0-1
State: installed
Priority: optional
Section: utils
Architecture: amd64
Depends: libc6 (>= 2.34), libgcc-s1 (>= 3.0)
Description: line-oriented search tool
 ripgrep is a line-oriented search tool that recursively searches
 the current directory for a regex pattern.
Homepage: https://github.com/BurntSushi/ripgrep
";
    let package = parse_show(stdout).unwrap();
    assert_eq!(package.name, "ripgrep");
    assert_eq!(package.state, InstallState::Installed);
    assert_eq!(
        package.description.as_deref(),
        Some("line-oriented search tool")
    );
    assert_eq!(
        package.dependencies,
        Some(vec!["libc6".to_string(), "libgcc-s1".to_string()])
    );
}

#[test]
fn missing_package_field_means_not_found() {
    assert!(parse_show("E: Unable to locate package nope\n").is_none());
}

#[test]
fn aptitude_formats_version_pins() {
    assert_eq!(
        spec(&PackageRequest::parse("ripgrep@14.1.0-1")),
        "ripgrep=14.1.0-1"
    );
    assert_eq!(spec(&PackageRequest::parse("ripgrep")), "ripgrep");
}

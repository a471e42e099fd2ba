use snowcone::backends::eopkg::{parse_info, parse_listing, parse_size, reject_pins};
use snowcone::package::InstallState;
use snowcone::request::PackageRequest;

#[test]
fn parses_installed_listing() {
    let stdout = "\
Installed packages:
acl        - Access control list utilities
ripgrep    - Line oriented search tool
";
    let packages = parse_listing(stdout, InstallState::Installed);
    assert_eq!(packages.len(), 2);
    assert_eq!(packages[1].name, "ripgrep");
    assert_eq!(
        packages[1].description.as_deref(),
        Some("Line oriented search tool")
    );
    assert_eq!(packages[1].state, InstallState::Installed);
}

#[test]
fn listing_skips_notices() {
    let packages = parse_listing("No packages to upgrade.\n", InstallState::Upgradable);
    assert!(packages.is_empty());
}

#[test]
fn parses_info_with_both_sections() {
    let stdout = "\
Installed package:
Name                : ripgrep, version: 13.0.0, release: 15
Summary             : Line oriented search tool
Description         : ripgrep is a line-oriented search tool that recursively
searches your current directory for a regex pattern.
Licenses            : MIT
Component           : system.utils
Dependencies        :
Distribution        : Solus, Dist. Release: 1
Architecture        : x86_64
Installed Size      : 4.45 MB
Reverse Dependencies:

Package found in Solus repository:
Name                : ripgrep, version: 14.1.0, release: 21
Summary             : Line oriented search tool
Licenses            : MIT
Component           : system.utils
Dependencies        : pcre2
Architecture        : x86_64
Package Size        : 1.72 MB
";
    let package = parse_info(stdout).unwrap();
    assert_eq!(package.name, "ripgrep");
    assert_eq!(package.version.as_deref(), Some("13.0.0-15"));
    assert_eq!(package.latest_version.as_deref(), Some("14.1.0-21"));
    assert_eq!(package.state, InstallState::Upgradable);
    assert_eq!(package.origin.as_deref(), Some("Solus"));
    assert_eq!(package.license.as_deref(), Some("MIT"));
    assert_eq!(package.architecture.as_deref(), Some("x86_64"));
    assert_eq!(
        package.description.as_deref(),
        Some("Line oriented search tool")
    );
    assert_eq!(package.installed_size, Some((4.45 * 1024.0 * 1024.0) as u64));
    assert_eq!(package.download_size, Some((1.72 * 1024.0 * 1024.0) as u64));
}

#[test]
fn parses_info_repo_only() {
    let stdout = "\
Package found in Solus repository:
Name                : nano, version: 8.0, release: 142
Summary             : Small, friendly text editor
Licenses            : GPL-3.0-or-later
Dependencies        : ncurses zlib
Architecture        : x86_64
Package Size        : 708.00 KB
";
    let package = parse_info(stdout).unwrap();
    assert_eq!(package.name, "nano");
    assert_eq!(package.version.as_deref(), Some("8.0-142"));
    assert_eq!(package.state, InstallState::Available);
    assert_eq!(
        package.dependencies,
        Some(vec!["ncurses".to_string(), "zlib".to_string()])
    );
}

#[test]
fn lib_parses_sizes() {
    assert_eq!(parse_size("708.00 KB"), Some((708.0 * 1024.0) as u64));
    assert_eq!(parse_size("1.72 MB"), Some((1.72 * 1024.0 * 1024.0) as u64));
    assert_eq!(parse_size("nonsense"), None);
}

#[test]
fn eopkg_rejects_version_pins() {
    assert!(reject_pins(&[PackageRequest::parse("ripgrep@14.1.0")]).is_err());
    assert!(reject_pins(&[PackageRequest::parse("ripgrep")]).is_ok());
}

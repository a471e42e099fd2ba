use snowcone::backends::aura::{parse_info, parse_installed, parse_outdated, parse_search, reject_pins};
use snowcone::package::{InstallState, Package};
use snowcone::request::PackageRequest;

#[test]
fn lib_parses_installed_lines() {
    let packages = parse_installed("bash 5.2.026-2\naura-bin 4.0.0-1\n");
    assert_eq!(packages.len(), 2);
    assert_eq!(packages[1].name(), "aura-bin");
    assert_eq!(packages[1].state(), InstallState::Installed);
}

#[test]
fn parses_search_from_both_sources() {
    let stdout = "\
aur/ripgrep-git 14.1.0.r13.g6f4212a-1 (+31 0.24)
    A search tool that combines the usability of ag with the raw speed of grep
";
    let packages = parse_search(stdout);
    assert_eq!(packages.len(), 1);
    assert_eq!(packages[0].name(), "ripgrep-git");
    assert_eq!(packages[0].origin(), Some("aur"));
}

#[test]
fn lib_parses_outdated_lines() {
    let packages = parse_outdated("linux 6.9.1.arch1-1 -> 6.9.2.arch1-1\n");
    assert_eq!(packages.len(), 1);
    assert_eq!(packages[0].state(), InstallState::Upgradable);
}

#[test]
fn parses_info_fields() {
    let stdout = "\
Repository      : aur
Name            : ripgrep-git
Version         : 14.1.0.r13.g6f4212a-1
Description     : A search tool
URL             : https://github.com/BurntSushi/ripgrep
";
    let package = parse_info(stdout, InstallState::Available).unwrap();
    assert_eq!(package.name, "ripgrep-git");
    assert_eq!(package.origin.as_deref(), Some("aur"));
}

#[test]
fn aura_rejects_version_pins() {
    assert!(reject_pins(&[PackageRequest::parse("ripgrep@14.1.0")]).is_err());
    assert!(reject_pins(&[PackageRequest::parse("ripgrep")]).is_ok());
}

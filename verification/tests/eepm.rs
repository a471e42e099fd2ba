use snowcone::backends::eepm::{parse_info, parse_qa, parse_search, parse_upgradable, reject_pins, split_nvr};
use snowcone::package::InstallState;
use snowcone::request::PackageRequest;

#[test]
fn splits_nvr_tokens() {
    assert_eq!(
        split_nvr("bash-5.2.15-alt1"),
        ("bash".to_string(), Some("5.2.15-alt1".to_string()))
    );
    assert_eq!(
        split_nvr("gcc-c++-13.2.1-alt2"),
        ("gcc-c++".to_string(), Some("13.2.1-alt2".to_string()))
    );
    assert_eq!(split_nvr("ia32-libs"), ("ia32-libs".to_string(), None));
    assert_eq!(split_nvr("bash"), ("bash".to_string(), None));
}

#[test]
fn parses_qa_lines_and_skips_echo_noise() {
    let stdout = "\
$ rpm -qa
bash-5.2.15-alt1
eepm-3.62.4-alt1
zsh
";
    let packages = parse_qa(stdout);
    assert_eq!(packages.len(), 3);
    assert_eq!(packages[0].name, "bash");
    assert_eq!(packages[0].version.as_deref(), Some("5.2.15-alt1"));
    assert_eq!(packages[0].state, InstallState::Installed);
    assert_eq!(packages[2].name, "zsh");
    assert_eq!(packages[2].version, None);
}

#[test]
fn eepm_parses_search_lines() {
    let stdout = "\
$ apt-cache search ripgrep
ripgrep - Recursively search directories for a regex pattern
ripgrep-all - Like ripgrep, but also search in PDFs and archives
";
    let packages = parse_search(stdout);
    assert_eq!(packages.len(), 2);
    assert_eq!(packages[0].name, "ripgrep");
    assert_eq!(
        packages[0].description.as_deref(),
        Some("Recursively search directories for a regex pattern")
    );
    assert_eq!(packages[0].state, InstallState::Available);
}

#[test]
fn parses_rpm_style_info() {
    let stdout = "\
Name        : ripgrep
Version     : 14.1.0
Release     : alt1
Architecture: x86_64
Group       : Text tools
License     : MIT
URL         : https://github.com/BurntSushi/ripgrep
Summary     : Recursively search directories for a regex pattern
Description :
ripgrep is a line-oriented search tool.
";
    let package = parse_info(stdout).unwrap();
    assert_eq!(package.name, "ripgrep");
    assert_eq!(package.version.as_deref(), Some("14.1.0-alt1"));
    assert_eq!(package.origin.as_deref(), Some("Text tools"));
    assert_eq!(package.license.as_deref(), Some("MIT"));
    assert_eq!(
        package.description.as_deref(),
        Some("Recursively search directories for a regex pattern")
    );
}

#[test]
fn parses_apt_style_info() {
    let stdout = "\
Package: ripgrep
Version: 14.1.0-alt1
Section: utils
Homepage: https://github.com/BurntSushi/ripgrep
Description: Recursively search directories for a regex pattern
";
    let package = parse_info(stdout).unwrap();
    assert_eq!(package.name, "ripgrep");
    assert_eq!(package.version.as_deref(), Some("14.1.0-alt1"));
    assert_eq!(package.origin.as_deref(), Some("utils"));
    assert_eq!(
        package.homepage.as_deref(),
        Some("https://github.com/BurntSushi/ripgrep")
    );
}

#[test]
fn parses_short_upgradable_names() {
    let stdout = "\
$ apt list --upgradable

bash
eepm
";
    let packages = parse_upgradable(stdout);
    assert_eq!(packages.len(), 2);
    assert_eq!(packages[0].name, "bash");
    assert_eq!(packages[0].state, InstallState::Upgradable);
}

#[test]
fn eepm_rejects_version_pins() {
    assert!(reject_pins(&[PackageRequest::parse("ripgrep@14.1.0")]).is_err());
    assert!(reject_pins(&[PackageRequest::parse("ripgrep")]).is_ok());
}

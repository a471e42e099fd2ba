use snowcone::backends::dpkg::{parse_list, parse_status, reject_pins};
use snowcone::package::InstallState;
use snowcone::request::PackageRequest;

#[test]
fn parses_query_list_lines() {
    let stdout = "\
bash\t5.2.21-2\tamd64\tinstall ok installed\tGNU Bourne Again SHell
ripgrep\t14.1.0-1\tamd64\tinstall ok installed\tline-oriented search tool
";
    let packages = parse_list(stdout);
    assert_eq!(packages.len(), 2);
    assert_eq!(packages[1].name, "ripgrep");
    assert_eq!(packages[1].version.as_deref(), Some("14.1.0-1"));
    assert_eq!(packages[1].architecture.as_deref(), Some("amd64"));
    assert_eq!(
        packages[1].description.as_deref(),
        Some("line-oriented search tool")
    );
    assert_eq!(packages[1].state, InstallState::Installed);
}

#[test]
fn filters_removed_but_configured_entries() {
    let stdout = "\
old-tool\t1.0-1\tamd64\tdeinstall ok config-files\tformerly installed
bash\t5.2.21-2\tamd64\tinstall ok installed\tGNU Bourne Again SHell
";
    let packages = parse_list(stdout);
    assert_eq!(packages.len(), 1);
    assert_eq!(packages[0].name, "bash");
}

#[test]
fn parses_status_stanza() {
    let stdout = "\
Package: ripgrep
Status: install ok installed
Priority: optional
Section: utils
Installed-Size: 5150
Maintainer: Debian Rust Maintainers <pkg-rust-maintainers@alioth-lists.debian.net>
Architecture: amd64
Version: 14.1.0-1
Depends: libc6 (>= 2.34), libgcc-s1 (>= 4.2)
Homepage: https://github.com/BurntSushi/ripgrep
Description: line-oriented search tool
 ripgrep recursively searches the current directory.
";
    let package = parse_status(stdout).unwrap();
    assert_eq!(package.name, "ripgrep");
    assert_eq!(package.version.as_deref(), Some("14.1.0-1"));
    assert_eq!(package.origin.as_deref(), Some("utils"));
    assert_eq!(package.installed_size, Some(5150 * 1024));
    assert_eq!(
        package.dependencies,
        Some(vec!["libc6".to_string(), "libgcc-s1".to_string()])
    );
    assert_eq!(
        package.description.as_deref(),
        Some("line-oriented search tool")
    );
    assert_eq!(package.state, InstallState::Installed);
}

#[test]
fn status_stanza_of_removed_package_is_none() {
    let stdout = "\
Package: old-tool
Status: deinstall ok config-files
Version: 1.0-1
";
    assert!(parse_status(stdout).is_none());
}

#[test]
fn dpkg_rejects_version_pins() {
    assert!(reject_pins(&[PackageRequest::parse("./ripgrep.deb@14.1.0")]).is_err());
    assert!(reject_pins(&[PackageRequest::parse("./ripgrep_14.1.0-1_amd64.deb")]).is_ok());
}

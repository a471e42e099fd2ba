use snowcone::backends::apx::{parse_list, parse_search, parse_show, reject_pins};
use snowcone::package::InstallState;
use snowcone::request::PackageRequest;

#[test]
fn lib_parses_installed_list_lines() {
    let stdout = "\
Listing...
bash/stable,now 5.2.21-2 amd64 [installed,automatic]
ripgrep/stable,now 14.1.0-1 amd64 [installed]
";
    let packages = parse_list(stdout);
    assert_eq!(packages.len(), 2);
    assert_eq!(packages[1].name, "ripgrep");
    assert_eq!(packages[1].version.as_deref(), Some("14.1.0-1"));
    assert_eq!(packages[1].state, InstallState::Installed);
}

#[test]
fn lib_parses_upgradable_list_lines() {
    let stdout = "bash/stable 5.2.21-3 amd64 [upgradable from: 5.2.21-2]\n";
    let packages = parse_list(stdout);
    assert_eq!(packages.len(), 1);
    assert_eq!(packages[0].version.as_deref(), Some("5.2.21-2"));
    assert_eq!(packages[0].latest_version.as_deref(), Some("5.2.21-3"));
    assert_eq!(packages[0].state, InstallState::Upgradable);
}

#[test]
fn lib_parses_search_entries() {
    let stdout = "\
Sorting...
Full Text Search...
ripgrep/stable 14.1.0-1 amd64
  line-oriented search tool

fd-find/stable 9.0.0-1 amd64 [installed]
  simple, fast alternative to find
";
    let packages = parse_search(stdout);
    assert_eq!(packages.len(), 2);
    assert_eq!(packages[0].name, "ripgrep");
    assert_eq!(
        packages[0].description.as_deref(),
        Some("line-oriented search tool")
    );
    assert_eq!(packages[1].state, InstallState::Installed);
}

#[test]
fn lib_parses_show_output() {
    let stdout = "\
Package: ripgrep
Version: 14.1.0-1
Priority: optional
Section: utils
Homepage: https://github.com/BurntSushi/ripgrep
Depends: libc6 (>= 2.34), libgcc-s1 (>= 3.0)
Description: line-oriented search tool
 ripgrep recursively searches the current directory.
";
    let package = parse_show(stdout).unwrap();
    assert_eq!(package.name, "ripgrep");
    assert_eq!(package.version.as_deref(), Some("14.1.0-1"));
    assert_eq!(
        package.description.as_deref(),
        Some("line-oriented search tool")
    );
    assert_eq!(
        package.dependencies,
        Some(vec!["libc6".to_string(), "libgcc-s1".to_string()])
    );
}

#[test]
fn lib_rejects_version_pins() {
    assert!(reject_pins(&[PackageRequest::parse("ripgrep@14.1.0-1")]).is_err());
    assert!(reject_pins(&[PackageRequest::parse("ripgrep")]).is_ok());
}

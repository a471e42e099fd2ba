use snowcone::backends::brew::{parse_info, parse_outdated, parse_search, parse_versions, reject_pins};
use snowcone::data::parse_json;
use snowcone::package::{InstallState, Package};
use snowcone::request::PackageRequest;

#[test]
fn parses_list_versions() {
    let packages = parse_versions("ripgrep 14.1.0\nfzf 0.46.0 0.46.1\n");
    assert_eq!(packages.len(), 2);
    assert_eq!(packages[1].name(), "fzf");
    assert_eq!(packages[1].version(), Some("0.46.1"));
    assert_eq!(packages[1].state(), InstallState::Installed);
}

#[test]
fn parses_info_installed_formula() {
    let json = parse_json(
        r#"{"formulae": [{
                "name": "ripgrep",
                "desc": "Search tool like grep and The Silver Searcher",
                "homepage": "https://github.com/BurntSushi/ripgrep",
                "license": "Unlicense",
                "versions": {"stable": "14.1.0"},
                "dependencies": ["pcre2"],
                "installed": [{"version": "14.0.3"}]
            }], "casks": []}"#,
    )
    .unwrap();
    let package = parse_info(&json).unwrap();
    assert_eq!(package.name, "ripgrep");
    assert_eq!(package.version.as_deref(), Some("14.0.3"));
    assert_eq!(package.latest_version.as_deref(), Some("14.1.0"));
    assert_eq!(package.state, InstallState::Installed);
    assert_eq!(package.dependencies, Some(vec!["pcre2".to_string()]));
}

#[test]
fn parses_info_available_formula() {
    let json = parse_json(
        r#"{"formulae": [{
                "name": "fzf",
                "versions": {"stable": "0.46.1"},
                "installed": []
            }], "casks": []}"#,
    )
    .unwrap();
    let package = parse_info(&json).unwrap();
    assert_eq!(package.version.as_deref(), Some("0.46.1"));
    assert_eq!(package.state, InstallState::Available);
}

#[test]
fn lib_parses_search_lines() {
    let packages = parse_search("==> Formulae\nripgrep\nripgrep-all\n");
    assert_eq!(packages.len(), 2);
    assert_eq!(packages[0].name(), "ripgrep");
}

#[test]
fn search_skips_the_casks_section() {
    let stdout = "\
==> Formulae
ripgrep
ripgrep-all

==> Casks
repetier-server
";
    let packages = parse_search(stdout);
    assert_eq!(packages.len(), 2);
    assert_eq!(packages[0].name(), "ripgrep");
    assert_eq!(packages[1].name(), "ripgrep-all");
}

#[test]
fn search_without_headers_keeps_all_names() {
    let packages = parse_search("ripgrep\nripgrep-all\n");
    assert_eq!(packages.len(), 2);
}

#[test]
fn parses_outdated_json() {
    let json = parse_json(
        r#"{"formulae": [{
                "name": "fzf",
                "installed_versions": ["0.46.0"],
                "current_version": "0.46.1"
            }], "casks": []}"#,
    )
    .unwrap();
    let packages = parse_outdated(&json);
    assert_eq!(packages.len(), 1);
    assert_eq!(packages[0].version(), Some("0.46.0"));
    assert_eq!(packages[0].latest_version(), Some("0.46.1"));
}

#[test]
fn brew_rejects_version_pins() {
    assert!(reject_pins(&[PackageRequest::parse("python@3.11")]).is_err());
    assert!(reject_pins(&[PackageRequest::parse("ripgrep")]).is_ok());
}

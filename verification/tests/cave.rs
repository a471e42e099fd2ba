use snowcone::backends::cave::{parse_id, parse_print_ids, parse_resolution, parse_search, parse_show, spec};
use snowcone::package::InstallState;
use snowcone::request::PackageRequest;

#[test]
fn parses_print_ids_lines() {
    let stdout = "\
app-shells/bash 5.2.21
sys-apps/ripgrep 14.1.0
";
    let packages = parse_print_ids(stdout);
    assert_eq!(packages.len(), 2);
    assert_eq!(packages[1].name, "sys-apps/ripgrep");
    assert_eq!(packages[1].version.as_deref(), Some("14.1.0"));
    assert_eq!(packages[1].state, InstallState::Installed);
}

#[test]
fn parses_id_tokens() {
    assert_eq!(
        parse_id("sys-apps/ripgrep-14.1.0:0::arbor"),
        Some((
            "sys-apps/ripgrep".to_string(),
            Some("14.1.0".to_string()),
            Some("arbor".to_string())
        ))
    );
    assert_eq!(
        parse_id("sys-apps/ripgrep"),
        Some(("sys-apps/ripgrep".to_string(), None, None))
    );
}

#[test]
fn parses_search_blocks() {
    let stdout = "\
* sys-apps/ripgrep
    ::arbor                   14.1.0 {:0}
    \"Recursively search directories for a regex pattern\"

* app-shells/zsh
    ::installed               5.9
    ::arbor                   5.9 {:0}
    Shell designed for interactive use
";
    let packages = parse_search(stdout);
    assert_eq!(packages.len(), 2);
    assert_eq!(packages[0].name, "sys-apps/ripgrep");
    assert_eq!(packages[0].version.as_deref(), Some("14.1.0"));
    assert_eq!(packages[0].origin.as_deref(), Some("arbor"));
    assert_eq!(packages[0].state, InstallState::Available);
    assert_eq!(
        packages[0].description.as_deref(),
        Some("Recursively search directories for a regex pattern")
    );
    assert_eq!(packages[1].state, InstallState::Installed);
    assert_eq!(packages[1].version.as_deref(), Some("5.9"));
}

#[test]
fn parses_show_with_installed_and_repo_ids() {
    let stdout = "\
sys-apps/ripgrep-13.0.0:0::installed
    Summary                   Recursively search directories for a regex pattern
    Homepage                  https://github.com/BurntSushi/ripgrep
    Licences                  MIT Unlicense

sys-apps/ripgrep-14.1.0:0::arbor
    Summary                   Recursively search directories for a regex pattern
";
    let package = parse_show(stdout).unwrap();
    assert_eq!(package.name, "sys-apps/ripgrep");
    assert_eq!(package.version.as_deref(), Some("13.0.0"));
    assert_eq!(package.latest_version.as_deref(), Some("14.1.0"));
    assert_eq!(package.state, InstallState::Upgradable);
    assert_eq!(package.license.as_deref(), Some("MIT Unlicense"));
    assert_eq!(package.origin.as_deref(), Some("arbor"));
}

#[test]
fn parses_show_without_install() {
    let stdout = "\
sys-apps/ripgrep-14.1.0:0::arbor
    Summary                   Recursively search directories for a regex pattern
";
    let package = parse_show(stdout).unwrap();
    assert_eq!(package.version.as_deref(), Some("14.1.0"));
    assert_eq!(package.state, InstallState::Available);
}

#[test]
fn parses_resolution_upgrades() {
    let stdout = "\
These are the actions I will take, in order:

u   sys-apps/coreutils:0::arbor 9.4 -> 9.5
n   dev-libs/pcre2:0::arbor 10.43
*   sys-apps/ripgrep-14.1.0:0::arbor replacing 13.0.0

Total: 3 packages
";
    let packages = parse_resolution(stdout);
    assert_eq!(packages.len(), 2);
    assert_eq!(packages[0].name, "sys-apps/coreutils");
    assert_eq!(packages[0].version.as_deref(), Some("9.4"));
    assert_eq!(packages[0].latest_version.as_deref(), Some("9.5"));
    assert_eq!(packages[1].name, "sys-apps/ripgrep");
    assert_eq!(packages[1].version.as_deref(), Some("13.0.0"));
    assert_eq!(packages[1].latest_version.as_deref(), Some("14.1.0"));
    assert_eq!(packages[1].state, InstallState::Upgradable);
}

#[test]
fn cave_formats_version_pins() {
    assert_eq!(
        spec(&PackageRequest::parse("sys-apps/ripgrep@14.1.0")),
        "=sys-apps/ripgrep-14.1.0"
    );
    assert_eq!(spec(&PackageRequest::parse("ripgrep")), "ripgrep");
}

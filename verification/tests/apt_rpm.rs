use snowcone::backends::apt_rpm::{parse_outdated, parse_rpm_list, parse_search, parse_show, spec};
use snowcone::package::InstallState;
use snowcone::request::PackageRequest;

#[test]
fn parses_rpm_list_lines() {
    let stdout = "\
bash\t5.2.15-alt1\tx86_64
zlib\t1.3.1-alt1\tx86_64
";
    let packages = parse_rpm_list(stdout);
    assert_eq!(packages.len(), 2);
    assert_eq!(packages[0].name, "bash");
    assert_eq!(packages[0].version.as_deref(), Some("5.2.15-alt1"));
    assert_eq!(packages[0].architecture.as_deref(), Some("x86_64"));
    assert_eq!(packages[0].state, InstallState::Installed);
}

#[test]
fn parses_search_lines() {
    let stdout = "\
ripgrep - Line-oriented search tool
ripgrep-debuginfo - Debug information for package ripgrep
";
    let packages = parse_search(stdout);
    assert_eq!(packages.len(), 2);
    assert_eq!(packages[0].name, "ripgrep");
    assert_eq!(
        packages[0].description.as_deref(),
        Some("Line-oriented search tool")
    );
    assert_eq!(packages[0].state, InstallState::Available);
}

#[test]
fn parses_first_show_stanza_only() {
    let stdout = "\
Package: ripgrep
Section: Text tools
Installed Size: 5271234
Maintainer: Someone <someone@altlinux.org>
Version: 14.1.0-alt1
Architecture: x86_64
Size: 1620322
Depends: glibc-core (>= 2.32), libpcre2
Description: Line-oriented search tool
 ripgrep recursively searches the current directory.

Package: ripgrep
Version: 13.0.0-alt1
Description: Older stanza that must be ignored
";
    let package = parse_show(stdout).unwrap();
    assert_eq!(package.name, "ripgrep");
    assert_eq!(package.version.as_deref(), Some("14.1.0-alt1"));
    assert_eq!(package.origin.as_deref(), Some("Text tools"));
    assert_eq!(package.download_size, Some(1620322));
    assert_eq!(
        package.dependencies,
        Some(vec!["glibc-core".to_string(), "libpcre2".to_string()])
    );
    assert_eq!(
        package.description.as_deref(),
        Some("Line-oriented search tool")
    );
}

#[test]
fn parses_simulate_upgrade_lines() {
    let stdout = "\
Reading Package Lists...
Building Dependency Tree...
The following packages will be upgraded
  bash zlib
Inst bash [5.2.15-alt1] (5.2.21-alt1 Sisyphus:x86_64)
Inst new-dep (1.0-alt1 Sisyphus:x86_64)
Conf bash (5.2.21-alt1 Sisyphus:x86_64)
";
    let packages = parse_outdated(stdout);
    assert_eq!(packages.len(), 1);
    assert_eq!(packages[0].name, "bash");
    assert_eq!(packages[0].version.as_deref(), Some("5.2.15-alt1"));
    assert_eq!(packages[0].latest_version.as_deref(), Some("5.2.21-alt1"));
    assert_eq!(packages[0].state, InstallState::Upgradable);
}

#[test]
fn lib_formats_version_pins() {
    assert_eq!(
        spec(&PackageRequest::parse("ripgrep@14.1.0-alt1")),
        "ripgrep=14.1.0-alt1"
    );
    assert_eq!(spec(&PackageRequest::parse("ripgrep")), "ripgrep");
}

use snowcone::backends::kiss::{parse_list, parse_search, parse_version_file, reject_pins, search_pattern};
use snowcone::package::InstallState;
use snowcone::request::PackageRequest;

#[test]
fn lib_parses_installed_list() {
    let packages = parse_list("zlib 1.3.1 1\nbusybox 1.36.1 1\n");
    assert_eq!(packages.len(), 2);
    assert_eq!(packages[0].name, "zlib");
    assert_eq!(packages[0].version.as_deref(), Some("1.3.1 1"));
    assert_eq!(packages[0].state, InstallState::Installed);
}

#[test]
fn parses_search_paths() {
    let stdout = "\
/var/db/kiss/repo/core/zlib
/var/db/kiss/repo/extra/zlib-ng
/var/db/kiss/installed/zlib
";
    let packages = parse_search(stdout);
    assert_eq!(packages.len(), 3);
    assert_eq!(packages[0].name, "zlib");
    assert_eq!(packages[0].origin.as_deref(), Some("core"));
    assert_eq!(packages[0].state, InstallState::Available);
    assert_eq!(packages[1].origin.as_deref(), Some("extra"));
    assert_eq!(packages[2].origin, None);
    assert_eq!(packages[2].state, InstallState::Installed);
}

#[test]
fn parses_version_files() {
    assert_eq!(parse_version_file("1.3.1 1\n"), Some("1.3.1 1".to_string()));
    assert_eq!(parse_version_file("  \n"), None);
}

#[test]
fn wraps_plain_queries_in_globs() {
    assert_eq!(search_pattern("zlib"), "*zlib*");
    assert_eq!(search_pattern("z*"), "z*");
}

#[test]
fn kiss_rejects_version_pins() {
    assert!(reject_pins(&[PackageRequest::parse("zlib@1.3.1")]).is_err());
    assert!(reject_pins(&[PackageRequest::parse("zlib")]).is_ok());
}

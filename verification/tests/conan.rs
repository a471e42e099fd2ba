use snowcone::backends::conan::{install_ref, parse_list_json, remove_pattern, search_pattern};
use snowcone::package::InstallState;
use snowcone::request::PackageRequest;

#[test]
fn formats_refs_and_patterns() {
    assert_eq!(
        install_ref(&PackageRequest::parse("zlib@1.3.1")),
        "zlib/1.3.1"
    );
    assert_eq!(install_ref(&PackageRequest::parse("zlib")), "zlib/[>=0]");
    assert_eq!(remove_pattern(&PackageRequest::parse("zlib")), "zlib/*");
    assert_eq!(search_pattern("zip"), "*zip*/*");
}

#[test]
fn parses_all_json_sources_and_channels() {
    let json = r#"{
          "Local Cache": {"zlib/1.3.1": {"revisions": {}}},
          "private": {"hello/2.0@acme/stable": {"revisions": {}}}
        }"#;
    let packages = parse_list_json(json, InstallState::Installed).unwrap();
    assert_eq!(packages.len(), 2);
    assert_eq!(packages[0].name, "hello");
    assert_eq!(packages[0].version.as_deref(), Some("2.0@acme/stable"));
    assert_eq!(packages[1].name, "zlib");
}

#[test]
fn rejects_malformed_json() {
    assert!(parse_list_json("[]", InstallState::Installed).is_err());
}

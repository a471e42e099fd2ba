use snowcone::backends::cpanm::{parse_installed, spec};
use snowcone::request::PackageRequest;

#[test]
fn formats_cpanminus_specs() {
    assert_eq!(spec(&PackageRequest::parse("DBI@1.647")), "DBI@1.647");
    assert_eq!(spec(&PackageRequest::parse("JSON::PP")), "JSON::PP");
}

#[test]
fn parses_perl_inventory() {
    let packages = parse_installed("DBI\t1.647\nJSON::PP\t4.16\nNoVersion\t\n");
    assert_eq!(packages.len(), 3);
    assert_eq!(packages[1].name, "JSON::PP");
    assert_eq!(packages[1].version.as_deref(), Some("4.16"));
    assert_eq!(packages[2].version, None);
}

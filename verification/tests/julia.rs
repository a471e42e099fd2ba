use snowcone::backends::julia::{parse_list, parse_outdated, spec};
use snowcone::request::PackageRequest;

#[test]
fn formats_package_specs() {
    assert_eq!(spec(&PackageRequest::parse("JSON@0.21.4")), "JSON@0.21.4");
    assert_eq!(spec(&PackageRequest::parse("JSON")), "JSON");
}

#[test]
fn parses_direct_dependencies() {
    let packages = parse_list("Example\t0.5.5\nTest\t\n");
    assert_eq!(packages.len(), 2);
    assert_eq!(packages[0].version.as_deref(), Some("0.5.5"));
    assert_eq!(packages[1].version, None);
}

#[test]
fn parses_outdated_status() {
    let packages = parse_outdated(
        "Status `Manifest.toml`\n⌃ [a8cc5b0e] Crayons v2.0.0 [<v3.0.0]\n⌅ [b8a86587] NearestNeighbors v0.4.8 [compat]\n",
    );
    assert_eq!(packages.len(), 2);
    assert_eq!(packages[0].name, "Crayons");
    assert_eq!(packages[0].version.as_deref(), Some("2.0.0"));
}

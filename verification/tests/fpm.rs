use snowcone::backends::fpm::{parse_cache, reject_pins};
use snowcone::request::PackageRequest;

#[test]
fn parses_fpm_dependency_cache_and_skips_root() {
    let cache = r#"
ndep = 3
[dependencies.demo]
proj-dir = "."
version = "0.1.0"
[dependencies.stdlib]
proj-dir = "build/dependencies/stdlib"
version = "0.7.0"
[dependencies.test-drive]
proj-dir = "build/dependencies/test-drive"
revision = "abc123"
"#;
    let packages = parse_cache(cache).unwrap();
    assert_eq!(packages.len(), 2);
    assert_eq!(packages[0].name, "stdlib");
    assert_eq!(packages[0].version.as_deref(), Some("0.7.0"));
    assert_eq!(packages[1].version.as_deref(), Some("abc123"));
}

#[test]
fn rejects_cli_version_pins() {
    assert!(reject_pins(&[PackageRequest::parse("stdlib@0.7.0")]).is_err());
}

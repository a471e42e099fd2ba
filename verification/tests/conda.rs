use snowcone::backends::conda::{parse_list, parse_outdated, parse_search, spec};
use snowcone::data::parse_json;
use snowcone::package::InstallState;
use snowcone::request::PackageRequest;

#[test]
fn parses_installed_list() {
    let json = parse_json(
        r#"[
                {"base_url": "https://repo.anaconda.com/pkgs/main",
                 "build_number": 0, "build_string": "py311h06a4308_0",
                 "channel": "defaults", "dist_name": "requests-2.31.0-py311h06a4308_0",
                 "name": "requests", "platform": "linux-64", "version": "2.31.0"},
                {"channel": "conda-forge", "name": "ripgrep",
                 "platform": "linux-64", "version": "14.1.0"}
            ]"#,
    )
    .unwrap();
    let packages = parse_list(&json);
    assert_eq!(packages.len(), 2);
    assert_eq!(packages[1].name, "ripgrep");
    assert_eq!(packages[1].version.as_deref(), Some("14.1.0"));
    assert_eq!(packages[1].origin.as_deref(), Some("conda-forge"));
    assert_eq!(packages[1].state, InstallState::Installed);
}

#[test]
fn parses_search_map_taking_newest_build() {
    let json = parse_json(
        r#"{"ripgrep": [
                {"build": "hc07d326_0", "channel": "conda-forge/linux-64",
                 "depends": ["libgcc-ng >=9"], "license": "MIT",
                 "name": "ripgrep", "size": 1400000, "subdir": "linux-64",
                 "version": "13.0.0"},
                {"build": "h6b4b5c5_0", "channel": "conda-forge/linux-64",
                 "depends": ["libgcc-ng >=12", "__glibc >=2.17"], "license": "MIT",
                 "name": "ripgrep", "size": 1543511, "subdir": "linux-64",
                 "version": "14.1.0"}
            ]}"#,
    )
    .unwrap();
    let packages = parse_search(&json);
    assert_eq!(packages.len(), 1);
    assert_eq!(packages[0].name, "ripgrep");
    assert_eq!(packages[0].version.as_deref(), Some("14.1.0"));
    assert_eq!(packages[0].license.as_deref(), Some("MIT"));
    assert_eq!(packages[0].architecture.as_deref(), Some("linux-64"));
    assert_eq!(packages[0].download_size, Some(1543511));
    assert_eq!(
        packages[0].dependencies,
        Some(vec!["libgcc-ng".to_string(), "__glibc".to_string()])
    );
    assert_eq!(packages[0].state, InstallState::Available);
}

#[test]
fn search_error_body_parses_to_nothing() {
    let json = parse_json(
        r#"{"caused_by": "None",
                "error": "PackagesNotFoundError: The following packages are not available",
                "exception_name": "PackagesNotFoundError", "message": "not available"}"#,
    )
    .unwrap();
    assert!(parse_search(&json).is_empty());
}

#[test]
fn parses_update_preview_into_outdated() {
    let json = parse_json(
        r#"{"actions": {
                "FETCH": [],
                "LINK": [
                    {"channel": "conda-forge", "dist_name": "ca-certificates-2026.1.5-hbd8a1cb_0",
                     "name": "ca-certificates", "platform": "linux-64", "version": "2026.1.5"},
                    {"channel": "conda-forge", "dist_name": "libzlib-1.3.1-hb9d3cd8_2",
                     "name": "libzlib", "platform": "linux-64", "version": "1.3.1"},
                    {"channel": "conda-forge", "dist_name": "openssl-3.4.0-h7b32b05_2",
                     "name": "openssl", "platform": "linux-64", "version": "3.4.0"}
                ],
                "PREFIX": "/opt/conda",
                "UNLINK": [
                    {"channel": "conda-forge", "name": "ca-certificates", "version": "2025.11.12"},
                    {"channel": "conda-forge", "name": "openssl", "version": "3.4.0"}
                ]
            }, "dry_run": true, "success": true}"#,
    )
    .unwrap();
    let packages = parse_outdated(&json);
    // libzlib is a new dependency, openssl is a build bump - only the
    // real version move survives.
    assert_eq!(packages.len(), 1);
    assert_eq!(packages[0].name, "ca-certificates");
    assert_eq!(packages[0].version.as_deref(), Some("2025.11.12"));
    assert_eq!(packages[0].latest_version.as_deref(), Some("2026.1.5"));
    assert_eq!(packages[0].state, InstallState::Upgradable);
}

#[test]
fn up_to_date_preview_parses_to_nothing() {
    let json = parse_json(
        r#"{"message": "All requested packages already installed.", "success": true}"#,
    )
    .unwrap();
    assert!(parse_outdated(&json).is_empty());
}

#[test]
fn conda_formats_version_pins() {
    assert_eq!(spec(&PackageRequest::parse("numpy@1.26.4")), "numpy=1.26.4");
    assert_eq!(spec(&PackageRequest::parse("numpy")), "numpy");
}

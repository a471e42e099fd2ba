use snowcone::backends::cargo_binstall::{parse_install_list, spec};
use snowcone::package::InstallState;
use snowcone::request::PackageRequest;

#[test]
fn lib_parses_install_list() {
    let stdout = "\
cargo-binstall v1.10.7:
    cargo-binstall
ripgrep v14.1.1:
    rg
sccache v0.8.1 (/home/nick/src/sccache):
    sccache
";
    let packages = parse_install_list(stdout);
    assert_eq!(packages.len(), 3);
    assert_eq!(packages[0].name, "cargo-binstall");
    assert_eq!(packages[0].version.as_deref(), Some("1.10.7"));
    assert_eq!(packages[0].origin, None);
    assert_eq!(packages[0].state, InstallState::Installed);
    assert_eq!(
        packages[2].origin.as_deref(),
        Some("/home/nick/src/sccache")
    );
}

#[test]
fn cargo_binstall_formats_version_pins() {
    assert_eq!(
        spec(&PackageRequest::parse("ripgrep@14.1.1")),
        "ripgrep@14.1.1"
    );
    assert_eq!(spec(&PackageRequest::parse("ripgrep")), "ripgrep");
}

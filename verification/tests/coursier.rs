use snowcone::backends::coursier::{parse_completions, parse_list, spec};
use snowcone::package::InstallState;
use snowcone::request::PackageRequest;

#[test]
fn parses_installed_apps() {
    let stdout = "ammonite\nbloop\nscalafmt\n\n";
    let packages = parse_list(stdout);
    assert_eq!(packages.len(), 3);
    assert_eq!(packages[0].name, "ammonite");
    assert_eq!(packages[0].state, InstallState::Installed);
}

#[test]
fn parses_dependency_completions() {
    let stdout = "io.circe\nio.circe.optics\n";
    let packages = parse_completions(stdout);
    assert_eq!(packages.len(), 2);
    assert_eq!(packages[1].name, "io.circe.optics");
    assert_eq!(packages[0].state, InstallState::Available);
}

#[test]
fn coursier_formats_version_pins() {
    assert_eq!(
        spec(&PackageRequest::parse("scalafmt@3.8.1")),
        "scalafmt:3.8.1"
    );
    assert_eq!(spec(&PackageRequest::parse("scalafmt")), "scalafmt");
}

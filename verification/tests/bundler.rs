use snowcone::backends::bundler::{parse_info, parse_list, parse_outdated, reject_pins};
use snowcone::package::InstallState;
use snowcone::request::PackageRequest;

#[test]
fn parses_bundle_list() {
    let stdout = "\
Gems included by the bundle:
  * CFPropertyList (2.3.6)
  * addressable (2.8.5)
  * rake (13.0.6)
Use `bundle info` to print more detailed information about a gem
";
    let packages = parse_list(stdout);
    assert_eq!(packages.len(), 3);
    assert_eq!(packages[0].name, "CFPropertyList");
    assert_eq!(packages[0].version.as_deref(), Some("2.3.6"));
    assert_eq!(packages[2].name, "rake");
    assert_eq!(packages[0].state, InstallState::Installed);
}

#[test]
fn parses_bundle_info() {
    let stdout = "\
  * rake (13.0.6)
\tSummary: Rake is a Make-like program implemented in Ruby
\tHomepage: https://github.com/ruby/rake
\tSource Code: https://github.com/ruby/rake
\tPath: /var/lib/gems/3.1.0/gems/rake-13.0.6
";
    let package = parse_info(stdout).unwrap();
    assert_eq!(package.name, "rake");
    assert_eq!(package.version.as_deref(), Some("13.0.6"));
    assert_eq!(
        package.description.as_deref(),
        Some("Rake is a Make-like program implemented in Ruby")
    );
    assert_eq!(
        package.homepage.as_deref(),
        Some("https://github.com/ruby/rake")
    );
    assert_eq!(package.state, InstallState::Installed);
}

#[test]
fn parses_outdated_table() {
    let stdout = "\
Fetching gem metadata from https://rubygems.org/.........

Gem   Current  Latest  Requested  Groups
rack  2.2.8    3.0.9   >= 0       default
rake  13.0.6   13.1.0
";
    let packages = parse_outdated(stdout);
    assert_eq!(packages.len(), 2);
    assert_eq!(packages[0].name, "rack");
    assert_eq!(packages[0].version.as_deref(), Some("2.2.8"));
    assert_eq!(packages[0].latest_version.as_deref(), Some("3.0.9"));
    assert_eq!(packages[1].name, "rake");
    assert_eq!(packages[0].state, InstallState::Upgradable);
}

#[test]
fn parses_outdated_bullets() {
    let stdout = "\
Outdated gems included in the bundle:
  * rack (newest 3.0.9, installed 2.2.8, requested ~> 2.2) in groups \"default\"
  * rake (newest 13.1.0, installed 13.0.6)
";
    let packages = parse_outdated(stdout);
    assert_eq!(packages.len(), 2);
    assert_eq!(packages[0].name, "rack");
    assert_eq!(packages[0].version.as_deref(), Some("2.2.8"));
    assert_eq!(packages[0].latest_version.as_deref(), Some("3.0.9"));
    assert_eq!(packages[1].version.as_deref(), Some("13.0.6"));
    assert_eq!(packages[1].latest_version.as_deref(), Some("13.1.0"));
}

#[test]
fn up_to_date_bundle_parses_to_nothing() {
    assert!(parse_outdated("Bundle up to date!\n").is_empty());
}

#[test]
fn bundler_rejects_version_pins() {
    assert!(reject_pins(&[PackageRequest::parse("rake@13.0.6")]).is_err());
    assert!(reject_pins(&[PackageRequest::parse("rake")]).is_ok());
}

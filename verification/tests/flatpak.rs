use snowcone::backends::flatpak::{parse_info, parse_list, parse_search, parse_updates, reject_pins};
use snowcone::package::InstallState;
use snowcone::request::PackageRequest;

#[test]
fn parses_installed_list_rows() {
    let stdout = "\
org.gnome.Calculator\t46.1\tCalculator\tflathub
org.mozilla.firefox\t128.0.3\tFirefox\tflathub
com.example.NoVersion\t\tExample\tfedora
";
    let packages = parse_list(stdout);
    assert_eq!(packages.len(), 3);
    assert_eq!(packages[0].name, "org.gnome.Calculator");
    assert_eq!(packages[0].version.as_deref(), Some("46.1"));
    assert_eq!(packages[0].description.as_deref(), Some("Calculator"));
    assert_eq!(packages[0].origin.as_deref(), Some("flathub"));
    assert_eq!(packages[0].state, InstallState::Installed);
    assert_eq!(packages[2].version, None);
}

#[test]
fn parses_search_rows_and_skips_no_matches_notice() {
    let stdout = "\
org.gnome.Calculator\t46.1\tflathub\tPerform arithmetic, scientific or financial calculations
No matches found
";
    let packages = parse_search(stdout);
    assert_eq!(packages.len(), 1);
    assert_eq!(packages[0].name, "org.gnome.Calculator");
    assert_eq!(packages[0].origin.as_deref(), Some("flathub"));
    assert_eq!(
        packages[0].description.as_deref(),
        Some("Perform arithmetic, scientific or financial calculations")
    );
    assert_eq!(packages[0].state, InstallState::Available);
}

#[test]
fn parses_remote_update_rows() {
    let stdout = "org.gnome.Calculator\t46.2\tflathub\n";
    let packages = parse_updates(stdout);
    assert_eq!(packages.len(), 1);
    assert_eq!(packages[0].latest_version.as_deref(), Some("46.2"));
    assert_eq!(packages[0].state, InstallState::Upgradable);
}

#[test]
fn lib_parses_info_output() {
    let stdout = "
Calculator - Perform arithmetic, scientific or financial calculations

          ID: org.gnome.Calculator
         Ref: app/org.gnome.Calculator/x86_64/stable
        Arch: x86_64
      Branch: stable
     Version: 46.1
     License: GPL-3.0-or-later
      Origin: flathub
  Collection: org.flathub.Stable
Installation: system
   Installed: 9.6 MB
     Runtime: org.gnome.Platform/x86_64/46
         Sdk: org.gnome.Sdk/x86_64/46
";
    let package = parse_info(stdout).unwrap();
    assert_eq!(package.name, "org.gnome.Calculator");
    assert_eq!(package.version.as_deref(), Some("46.1"));
    assert_eq!(
        package.description.as_deref(),
        Some("Perform arithmetic, scientific or financial calculations")
    );
    assert_eq!(package.license.as_deref(), Some("GPL-3.0-or-later"));
    assert_eq!(package.architecture.as_deref(), Some("x86_64"));
    assert_eq!(package.origin.as_deref(), Some("flathub"));
    assert_eq!(
        package.dependencies,
        Some(vec!["org.gnome.Platform/x86_64/46".to_string()])
    );
    assert_eq!(package.state, InstallState::Installed);
}

#[test]
fn info_without_headline_still_parses() {
    let stdout = "\
          ID: org.gnome.Calculator
     Version: 46.1
";
    let package = parse_info(stdout).unwrap();
    assert_eq!(package.name, "org.gnome.Calculator");
    assert_eq!(package.description, None);
}

#[test]
fn flatpak_rejects_version_pins() {
    assert!(reject_pins(&[PackageRequest::parse("org.gnome.Calculator@46.1")]).is_err());
    assert!(reject_pins(&[PackageRequest::parse("org.gnome.Calculator")]).is_ok());
}

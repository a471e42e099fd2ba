use snowcone::backends::cabal::{parse_info, parse_simple_list, parse_summary, pin_constraint};
use snowcone::package::InstallState;
use snowcone::request::PackageRequest;

#[test]
fn parses_simple_output() {
    let stdout = "\
base 4.18.2.1
optparse-applicative 0.18.1.0
Warning: this line is not a package
";
    let packages = parse_simple_list(stdout);
    assert_eq!(packages.len(), 2);
    assert_eq!(packages[1].name, "optparse-applicative");
    assert_eq!(packages[1].version.as_deref(), Some("0.18.1.0"));
    assert_eq!(packages[1].state, InstallState::Installed);
}

#[test]
fn parses_list_blocks() {
    let stdout = "\
* AC-Angle
    Synopsis: Angles in degrees and radians.
    Default available version: 1.0
    Installed versions: [ Not installed ]
    License:  BSD3

* Cabal
    Synopsis: A framework for packaging Haskell software
    Default available version: 3.10.2.1
    Installed versions: 3.8.1.0
    License:  BSD3
";
    let packages = parse_summary(stdout);
    assert_eq!(packages.len(), 2);
    assert_eq!(packages[0].name, "AC-Angle");
    assert_eq!(packages[0].version.as_deref(), Some("1.0"));
    assert_eq!(packages[0].state, InstallState::Available);
    assert_eq!(
        packages[0].description.as_deref(),
        Some("Angles in degrees and radians.")
    );
    assert_eq!(packages[1].version.as_deref(), Some("3.8.1.0"));
    assert_eq!(packages[1].latest_version.as_deref(), Some("3.10.2.1"));
    assert_eq!(packages[1].state, InstallState::Upgradable);
}

#[test]
fn parses_info_output() {
    let stdout = "\
* zlib             (library)
    Synopsis:      Compression and decompression in the gzip and zlib
                   formats
    Versions available: 0.5.4.2, 0.6.3.0, 0.7.1.0 (and 12
                        others)
    Versions installed: 0.7.1.0
    Homepage:      https://github.com/haskell/zlib
    Bug reports:   https://github.com/haskell/zlib/issues
    License:       BSD-3-Clause
    Dependencies:  base >=4.9 && <5, bytestring >=0.10.4 && <0.13
";
    let package = parse_info(stdout).unwrap();
    assert_eq!(package.name, "zlib");
    assert_eq!(package.version.as_deref(), Some("0.7.1.0"));
    assert_eq!(package.latest_version, None);
    assert_eq!(package.state, InstallState::Installed);
    assert_eq!(
        package.description.as_deref(),
        Some("Compression and decompression in the gzip and zlib formats")
    );
    assert_eq!(package.license.as_deref(), Some("BSD-3-Clause"));
    assert_eq!(
        package.dependencies,
        Some(vec!["base".to_string(), "bytestring".to_string()])
    );
}

#[test]
fn info_marks_not_installed_packages_available() {
    let stdout = "\
* aeson
    Synopsis:      Fast JSON parsing and encoding
    Versions available: 0.2.0.0, 2.2.0.0, 2.2.1.0 (and 71 others)
    Versions installed: [ Not installed ]
    License:       BSD-3-Clause
";
    let package = parse_info(stdout).unwrap();
    assert_eq!(package.state, InstallState::Available);
    assert_eq!(package.version.as_deref(), Some("2.2.1.0"));
    assert_eq!(package.latest_version, None);
}

#[test]
fn info_marks_outdated_installs_upgradable() {
    let stdout = "\
* pandoc
    Versions available: 3.1.0, 3.2.0
    Versions installed: 3.1.0
";
    let package = parse_info(stdout).unwrap();
    assert_eq!(package.state, InstallState::Upgradable);
    assert_eq!(package.version.as_deref(), Some("3.1.0"));
    assert_eq!(package.latest_version.as_deref(), Some("3.2.0"));
}

#[test]
fn formats_version_pins_as_constraints() {
    assert_eq!(
        pin_constraint(&PackageRequest::parse("hlint@3.8")).as_deref(),
        Some("--constraint=hlint==3.8")
    );
    assert_eq!(pin_constraint(&PackageRequest::parse("hlint")), None);
}

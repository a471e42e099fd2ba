use snowcone::backends::composer::{parse_search, parse_show_json, parse_show_text, pick_version, spec};
use snowcone::data::parse_json;
use snowcone::package::InstallState;
use snowcone::request::PackageRequest;

#[test]
fn parses_installed_show_json() {
    let json = parse_json(
        r#"{"installed": [
                {"name": "friendsofphp/php-cs-fixer", "version": "v3.64.0",
                 "description": "A tool to automatically fix PHP code style"},
                {"name": "psy/psysh", "version": "v0.12.4",
                 "description": "An interactive shell for modern PHP."}
            ]}"#,
    )
    .unwrap();
    let packages = parse_show_json(&json);
    assert_eq!(packages.len(), 2);
    assert_eq!(packages[0].name, "friendsofphp/php-cs-fixer");
    assert_eq!(packages[0].version.as_deref(), Some("v3.64.0"));
    assert_eq!(packages[0].state, InstallState::Installed);
    assert_eq!(packages[0].latest_version, None);
}

#[test]
fn parses_outdated_show_json() {
    let json = parse_json(
        r#"{"installed": [
                {"name": "psy/psysh", "version": "v0.12.0", "latest": "v0.12.4",
                 "latest-status": "semver-safe-update",
                 "description": "An interactive shell for modern PHP."}
            ]}"#,
    )
    .unwrap();
    let packages = parse_show_json(&json);
    assert_eq!(packages.len(), 1);
    assert_eq!(packages[0].version.as_deref(), Some("v0.12.0"));
    assert_eq!(packages[0].latest_version.as_deref(), Some("v0.12.4"));
    assert_eq!(packages[0].state, InstallState::Upgradable);
}

#[test]
fn composer_parses_search_lines() {
    let stdout = "\
monolog/monolog Sends your logs to files, sockets, inboxes, databases and various web services
seldaek/monolog-bridge
Some warning without a package name
";
    let packages = parse_search(stdout);
    assert_eq!(packages.len(), 2);
    assert_eq!(packages[0].name, "monolog/monolog");
    assert!(
        packages[0]
            .description
            .as_deref()
            .unwrap()
            .starts_with("Sends your logs")
    );
    assert_eq!(packages[1].description, None);
    assert_eq!(packages[0].state, InstallState::Available);
}

#[test]
fn parses_show_all_text() {
    let stdout = "\
name     : monolog/monolog
descrip. : Sends your logs to files, sockets, inboxes, databases and various web services
keywords : log, logging, psr-3
versions : dev-main, 3.x-dev, 3.7.0, 3.6.0, 2.9.3
type     : library
license  : MIT License (MIT) (OSI approved) https://spdx.org/licenses/MIT.html
homepage : https://github.com/Seldaek/monolog
source   : [git] https://github.com/Seldaek/monolog.git 4b1cf9c
names    : monolog/monolog, psr/log-implementation

requires
php >=8.1
psr/log ^2.0 || ^3.0

requires (dev)
phpunit/phpunit ^10.5.17
";
    let package = parse_show_text(stdout).unwrap();
    assert_eq!(package.name, "monolog/monolog");
    assert_eq!(package.version.as_deref(), Some("3.7.0"));
    assert!(
        package
            .description
            .as_deref()
            .unwrap()
            .starts_with("Sends your logs")
    );
    assert_eq!(
        package.homepage.as_deref(),
        Some("https://github.com/Seldaek/monolog")
    );
    assert_eq!(
        package.dependencies,
        Some(vec!["php".to_string(), "psr/log".to_string()])
    );
    assert_eq!(package.state, InstallState::Available);
}

#[test]
fn picks_installed_marker_version() {
    assert_eq!(pick_version("* v3.64.0").as_deref(), Some("v3.64.0"));
    assert_eq!(
        pick_version("dev-main, 9999999-dev").as_deref(),
        Some("dev-main")
    );
}

#[test]
fn composer_formats_version_pins() {
    assert_eq!(
        spec(&PackageRequest::parse("monolog/monolog@3.7.0")),
        "monolog/monolog:3.7.0"
    );
    assert_eq!(
        spec(&PackageRequest::parse("monolog/monolog")),
        "monolog/monolog"
    );
}

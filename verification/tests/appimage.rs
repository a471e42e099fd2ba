use snowcone::backends::appimage::{parse_files, parse_query, reject_pins, strip_ansi};
use snowcone::package::InstallState;
use snowcone::request::PackageRequest;

#[test]
fn strips_ansi_sequences() {
    assert_eq!(
        strip_ansi("\u{1b}[32m\u{25c6} firefox\u{1b}[0m | 128.0"),
        "\u{25c6} firefox | 128.0"
    );
    assert_eq!(strip_ansi("plain"), "plain");
}

#[test]
fn parses_files_table() {
    let stdout = "\
- APPNAME | VERSION | TYPE | SIZE
- ------- | ------- | ---- | ----
 \u{25c6} am | 9.3 | appimage | 4.7 MB
 \u{25c6} firefox | 128.0.3 | appimage | 256 MB
";
    let packages = parse_files(stdout);
    assert_eq!(packages.len(), 2);
    assert_eq!(packages[1].name, "firefox");
    assert_eq!(packages[1].version.as_deref(), Some("128.0.3"));
    assert_eq!(packages[1].state, InstallState::Installed);
}

#[test]
fn parses_files_table_with_db_column() {
    let stdout = "\
- APPNAME | DB | VERSION | TYPE | SIZE
 \u{25c6} obsidian | am | 1.6.7 | appimage | 512 MB
";
    let packages = parse_files(stdout);
    assert_eq!(packages.len(), 1);
    assert_eq!(packages[0].name, "obsidian");
    assert_eq!(packages[0].version.as_deref(), Some("1.6.7"));
}

#[test]
fn parses_colored_files_table() {
    let stdout = " \u{1b}[32m\u{25c6} firefox\u{1b}[0m | 128.0.3 | appimage | 256 MB\n";
    let packages = parse_files(stdout);
    assert_eq!(packages.len(), 1);
    assert_eq!(packages[0].name, "firefox");
}

#[test]
fn parses_query_results() {
    let stdout = "\
\u{25c6} firefox : Mozilla Firefox web browser.
  \u{25c6} firefox-esr : Extended Support Release.
Some footer line without a bullet
";
    let packages = parse_query(stdout);
    assert_eq!(packages.len(), 2);
    assert_eq!(packages[0].name, "firefox");
    assert_eq!(
        packages[0].description.as_deref(),
        Some("Mozilla Firefox web browser.")
    );
    assert_eq!(packages[1].name, "firefox-esr");
    assert_eq!(packages[0].state, InstallState::Available);
}

#[test]
fn rejects_version_pins() {
    assert!(reject_pins(&[PackageRequest::parse("firefox@128.0")]).is_err());
    assert!(reject_pins(&[PackageRequest::parse("firefox")]).is_ok());
}

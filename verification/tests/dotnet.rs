use snowcone::backends::dotnet::{parse_detail, parse_table};
use snowcone::package::InstallState;

#[test]
fn parses_installed_list_table() {
    let stdout = "\
Package Id        Version      Commands
-----------------------------------------
dotnetsay         2.1.7        dotnetsay
dotnet-ef         8.0.1        dotnet-ef
";
    let packages = parse_table(stdout, InstallState::Installed);
    assert_eq!(packages.len(), 2);
    assert_eq!(packages[0].name, "dotnetsay");
    assert_eq!(packages[0].version.as_deref(), Some("2.1.7"));
    assert_eq!(packages[0].state, InstallState::Installed);
    assert_eq!(packages[1].name, "dotnet-ef");
}

#[test]
fn parses_search_table() {
    let stdout = "\
Package ID          Latest Version      Authors            Downloads      Verified
------------------------------------------------------------------------------------
dotnetsay           2.1.7               nocture            21312312
dotnet-ef           8.0.1               Microsoft          123456789          x
";
    let packages = parse_table(stdout, InstallState::Available);
    assert_eq!(packages.len(), 2);
    assert_eq!(packages[1].name, "dotnet-ef");
    assert_eq!(packages[1].version.as_deref(), Some("8.0.1"));
    assert_eq!(packages[1].state, InstallState::Available);
}

#[test]
fn headerless_output_parses_to_nothing() {
    assert!(parse_table("No tools installed.\n", InstallState::Installed).is_empty());
}

#[test]
fn parses_search_detail_blocks() {
    let stdout = "\
----------------
dotnet-format
Latest Version: 4.1.131201
Authors: Microsoft
Tags:
Downloads: 496746
Verified: False
Summary: Command line formatter.
Description: Command line tool for formatting code files based on .editorconfig settings.
Versions:
        3.0.2 Downloads: 1240
        4.1.131201 Downloads: 25
----------------
dotnet-format-lite
Latest Version: 1.0.0
Summary: Another formatter.
";
    let packages = parse_detail(stdout);
    assert_eq!(packages.len(), 2);
    assert_eq!(packages[0].name, "dotnet-format");
    assert_eq!(packages[0].version.as_deref(), Some("4.1.131201"));
    assert_eq!(
        packages[0].description.as_deref(),
        Some("Command line tool for formatting code files based on .editorconfig settings.")
    );
    assert_eq!(packages[1].name, "dotnet-format-lite");
    assert_eq!(
        packages[1].description.as_deref(),
        Some("Another formatter.")
    );
    assert_eq!(packages[1].state, InstallState::Available);
}

use snowcone::backends::hatch::{parse_python_show, reject_pins};
use snowcone::package::InstallState;
use snowcone::request::PackageRequest;

#[test]
fn parses_show_tables() {
    let stdout = "\
     Installed
┏━━━━━━┳━━━━━━━━━┓
┃ Name ┃ Version ┃
┡━━━━━━╇━━━━━━━━━┩
│ 3.12 │ 3.12.3  │
└──────┴─────────┘
     Available
┏━━━━━━━━━━┳━━━━━━━━━┓
┃ Name     ┃ Version ┃
┡━━━━━━━━━━╇━━━━━━━━━┩
│ 3.11     │ 3.11.9  │
│ pypy3.10 │ 7.3.15  │
└──────────┴─────────┘
";
    let packages = parse_python_show(stdout);
    assert_eq!(packages.len(), 3);
    assert_eq!(packages[0].name, "3.12");
    assert_eq!(packages[0].version.as_deref(), Some("3.12.3"));
    assert_eq!(packages[0].state, InstallState::Installed);
    assert_eq!(packages[1].state, InstallState::Available);
    assert_eq!(packages[2].name, "pypy3.10");
    assert_eq!(packages[2].version.as_deref(), Some("7.3.15"));
}

#[test]
fn parses_ascii_rows() {
    let stdout = "\
Installed
| 3.12 | 3.12.3 |
";
    let packages = parse_python_show(stdout);
    assert_eq!(packages.len(), 1);
    assert_eq!(packages[0].name, "3.12");
    assert_eq!(packages[0].state, InstallState::Installed);
}

#[test]
fn rows_outside_a_section_are_ignored() {
    assert!(parse_python_show("│ 3.12 │ 3.12.3 │\n").is_empty());
}

#[test]
fn hatch_rejects_version_pins() {
    assert!(reject_pins(&[PackageRequest::parse("3.12@3.12.3")]).is_err());
    assert!(reject_pins(&[PackageRequest::parse("3.12")]).is_ok());
}

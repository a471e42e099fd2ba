use snowcone::backends::bun::{parse_tree, spec, split_spec};
use snowcone::package::InstallState;
use snowcone::request::PackageRequest;

#[test]
fn parses_global_tree() {
    let stdout = "\
/home/nick/.bun/install/global node_modules (3)
├── @angular/cli@17.3.8
├── prettier@3.3.2
└── typescript@5.5.3
";
    let packages = parse_tree(stdout);
    assert_eq!(packages.len(), 3);
    assert_eq!(packages[0].name, "@angular/cli");
    assert_eq!(packages[0].version.as_deref(), Some("17.3.8"));
    assert_eq!(packages[0].state, InstallState::Installed);
    assert_eq!(packages[2].name, "typescript");
    assert_eq!(packages[2].version.as_deref(), Some("5.5.3"));
}

#[test]
fn empty_tree_parses_to_nothing() {
    assert!(parse_tree("/home/nick/.bun/install/global node_modules\n").is_empty());
}

#[test]
fn splits_specs_keeping_scopes() {
    assert_eq!(
        split_spec("@scope/pkg@1.0.0"),
        ("@scope/pkg".to_string(), Some("1.0.0".to_string()))
    );
    assert_eq!(split_spec("prettier"), ("prettier".to_string(), None));
}

#[test]
fn bun_formats_version_pins() {
    assert_eq!(
        spec(&PackageRequest::parse("typescript@5.5.3")),
        "typescript@5.5.3"
    );
    assert_eq!(spec(&PackageRequest::parse("prettier")), "prettier");
}

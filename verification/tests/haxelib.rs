use snowcone::backends::haxelib::{parse_info, parse_list};

#[test]
fn list_uses_active_version() {
    let p = parse_list("format: 3.4.0 [3.5.0]\nhxcpp: [4,3,2]\n");
    assert_eq!(p[0].version.as_deref(), Some("3.5.0"));
    assert_eq!(p[1].version.as_deref(), Some("4.3.2"));
}
#[test]
fn info_fields() {
    let p = parse_info("Project: openfl\nDescription: Framework\nCurrent version: 9.4.1\n")
        .unwrap();
    assert_eq!(p.name, "openfl");
    assert_eq!(p.description.as_deref(), Some("Framework"));
}

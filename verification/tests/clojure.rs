use snowcone::backends::clojure::{edn_string, parse_tools_list, reject_pins, tool_alias};
use snowcone::package::InstallState;
use snowcone::request::PackageRequest;

#[test]
fn parses_tools_list_table() {
    let stdout = "\
TOOL   LIB                              TYPE   VERSION
antq   com.github.liquidz/antq         :mvn   2.8.1173
new    io.github.seancorfield/deps-new :git   v0.5.2
tools  io.github.clojure/tools.tools   :git   v0.3.1
";
    let packages = parse_tools_list(stdout);
    assert_eq!(packages.len(), 3);
    assert_eq!(packages[0].name, "antq");
    assert_eq!(packages[0].version.as_deref(), Some("2.8.1173"));
    assert_eq!(
        packages[0].origin.as_deref(),
        Some("com.github.liquidz/antq")
    );
    assert_eq!(packages[1].version.as_deref(), Some("v0.5.2"));
    assert_eq!(packages[1].state, InstallState::Installed);
}

#[test]
fn banner_lines_parse_to_nothing() {
    let stdout = "\
Cloning: https://github.com/clojure/tools.tools.git
Checking out: https://github.com/clojure/tools.tools.git at v0.3.1
TOOL LIB TYPE VERSION
";
    assert!(parse_tools_list(stdout).is_empty());
}

#[test]
fn derives_tool_aliases() {
    assert_eq!(tool_alias("io.github.seancorfield/deps-new"), "deps-new");
    assert_eq!(tool_alias("com.github.liquidz/antq"), "antq");
    assert_eq!(tool_alias("deps-new"), "deps-new");
}

#[test]
fn formats_edn_strings() {
    assert_eq!(edn_string("deps-new"), "\"deps-new\"");
}

#[test]
fn clojure_rejects_version_pins() {
    assert!(reject_pins(&[PackageRequest::parse("io.github.foo/bar@1.0.0")]).is_err());
    assert!(reject_pins(&[PackageRequest::parse("io.github.foo/bar")]).is_ok());
}

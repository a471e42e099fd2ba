use snowcone::backends::leiningen::{dependency_vector, matches_name, parse_search, parse_tree, reject_pins};
use snowcone::package::InstallState;
use snowcone::request::PackageRequest;

#[test]
fn parses_search_results() {
    let stdout = "\
Searching clojars ...
[clj-http \"3.12.3\"]
  HTTP library wrapping Apache HttpComponents client.
[org.clojure/clojure \"1.11.1\"]
  Clojure core environment and runtime library.
";
    let packages = parse_search(stdout);
    assert_eq!(packages.len(), 2);
    assert_eq!(packages[0].name, "clj-http");
    assert_eq!(packages[0].version.as_deref(), Some("3.12.3"));
    assert_eq!(
        packages[0].description.as_deref(),
        Some("HTTP library wrapping Apache HttpComponents client.")
    );
    assert_eq!(packages[1].name, "org.clojure/clojure");
    assert_eq!(packages[1].state, InstallState::Available);
}

#[test]
fn parses_old_style_same_line_descriptions() {
    let packages = parse_search("[lein-ring \"0.12.5\"] Leiningen Ring plugin\n");
    assert_eq!(packages.len(), 1);
    assert_eq!(packages[0].version.as_deref(), Some("0.12.5"));
    assert_eq!(
        packages[0].description.as_deref(),
        Some("Leiningen Ring plugin")
    );
}

#[test]
fn parses_deps_tree() {
    let output = "\
Possibly confusing dependencies found:
[clj-http \"2.0.0\"] -> [potemkin \"0.4.1\"]
 overrides
[midje \"1.8.3\"] -> [potemkin \"0.4.0\"]

 [cheshire \"5.10.0\"]
   [com.fasterxml.jackson.core/jackson-core \"2.10.2\"]
 [clj-http \"3.12.3\" :exclusions [commons-logging]]
 [org.clojure/clojure \"1.11.1\"]
   [org.clojure/core.specs.alpha \"0.2.62\"]
";
    let packages = parse_tree(output);
    assert_eq!(packages.len(), 5);
    assert_eq!(packages[0].name, "cheshire");
    assert_eq!(packages[0].version.as_deref(), Some("5.10.0"));
    assert_eq!(packages[0].state, InstallState::Installed);
    assert_eq!(packages[2].name, "clj-http");
    assert_eq!(packages[2].version.as_deref(), Some("3.12.3"));
    assert_eq!(packages[4].name, "org.clojure/core.specs.alpha");
}

#[test]
fn matches_bare_and_qualified_names() {
    assert!(matches_name("org.clojure/core.async", "core.async"));
    assert!(matches_name(
        "org.clojure/core.async",
        "org.clojure/core.async"
    ));
    assert!(matches_name("clj-http", "clj-http"));
    assert!(!matches_name("core.async", "org.clojure/core.async"));
    assert!(!matches_name("org.clojure/core.async", "async"));
}

#[test]
fn formats_dependency_vectors() {
    assert_eq!(dependency_vector("clj-http"), "[clj-http \"RELEASE\"]");
    assert_eq!(
        dependency_vector("org.clojure/core.async"),
        "[org.clojure/core.async \"RELEASE\"]"
    );
}

#[test]
fn leiningen_rejects_version_pins() {
    assert!(reject_pins(&[PackageRequest::parse("clj-http@3.12.3")]).is_err());
    assert!(reject_pins(&[PackageRequest::parse("clj-http")]).is_ok());
}

use snowcone::backends::gradle::{parse_dependency_tree, split_coordinate};
use snowcone::package::InstallState;

#[test]
fn parses_dependency_tree() {
    let stdout = "\
------------------------------------------------------------
Root project 'demo'
------------------------------------------------------------

compileClasspath - Compile classpath for source set 'main'.
+--- org.apache.commons:commons-lang3:3.14.0
+--- com.google.guava:guava:33.0.0-jre
|    +--- com.google.guava:failureaccess:1.2.0
|    \\--- org.checkerframework:checker-qual:3.41.0
\\--- project :shared

runtimeClasspath - Runtime classpath of source set 'main'.
+--- org.apache.commons:commons-lang3:3.14.0
\\--- com.google.guava:guava:33.0.0-jre (*)
";
    let packages = parse_dependency_tree(stdout);
    assert_eq!(packages.len(), 4);
    assert_eq!(packages[0].name, "org.apache.commons:commons-lang3");
    assert_eq!(packages[0].version.as_deref(), Some("3.14.0"));
    assert_eq!(packages[0].state, InstallState::Installed);
    assert_eq!(packages[2].name, "com.google.guava:failureaccess");
}

#[test]
fn resolves_version_conflict_arrows() {
    let stdout = "\
+--- org.slf4j:slf4j-api:1.7.36 -> 2.0.12
+--- com.example:old -> com.example:new:2.0 (*)
";
    let packages = parse_dependency_tree(stdout);
    assert_eq!(packages.len(), 2);
    assert_eq!(packages[0].version.as_deref(), Some("2.0.12"));
    assert_eq!(packages[1].name, "com.example:new");
    assert_eq!(packages[1].version.as_deref(), Some("2.0"));
}

#[test]
fn splits_coordinates() {
    assert_eq!(
        split_coordinate("org.slf4j:slf4j-api:2.0.12", None),
        Some((
            "org.slf4j:slf4j-api".to_string(),
            Some("2.0.12".to_string())
        ))
    );
    assert_eq!(
        split_coordinate("org.slf4j:slf4j-api", Some("2.0.12")),
        Some((
            "org.slf4j:slf4j-api".to_string(),
            Some("2.0.12".to_string())
        ))
    );
    assert_eq!(split_coordinate("slf4j-api", None), None);
}

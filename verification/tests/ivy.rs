use std::cmp::Ordering;

use snowcone::backends::ivy::{compare_versions, revision_from_descriptor, split_coordinate};

#[test]
fn reads_revisions_from_descriptor_names() {
    assert_eq!(revision_from_descriptor("ivy-2.17.2.xml").as_deref(), Some("2.17.2"));
    assert_eq!(
        revision_from_descriptor("ivy-1.0-beta1.xml").as_deref(),
        Some("1.0-beta1")
    );
    assert_eq!(revision_from_descriptor("ivy-2.17.2.xml.original"), None);
    assert_eq!(revision_from_descriptor("ivydata-2.17.2.properties"), None);
    assert_eq!(revision_from_descriptor("commons-lang3-2.17.2.jar"), None);
}

#[test]
fn lib_splits_coordinates() {
    assert_eq!(
        split_coordinate("org.apache.ant:ant").unwrap(),
        ("org.apache.ant".to_string(), "ant".to_string())
    );
    // A trailing revision is accepted and ignored.
    assert_eq!(
        split_coordinate("org.apache.ant:ant:1.10.14").unwrap(),
        ("org.apache.ant".to_string(), "ant".to_string())
    );
    assert!(split_coordinate("ant").is_err());
    assert!(split_coordinate(":ant").is_err());
}

#[test]
fn compares_revisions_numerically() {
    assert_eq!(compare_versions("1.10.0", "1.9.0"), Ordering::Greater);
    assert_eq!(compare_versions("2.17.2", "2.17.2"), Ordering::Equal);
    assert_eq!(compare_versions("1.0", "1.0-beta"), Ordering::Less);
}

use snowcone::backends::helm::{install_target, parse_release_json, parse_search_json, release_locator, split_chart_version};

#[test]
fn parses_install_and_release_targets() {
    assert_eq!(
        install_target("bitnami/nginx"),
        (None, "bitnami/nginx".to_string())
    );
    assert_eq!(
        install_target("apps/web=bitnami/nginx"),
        (
            Some((Some("apps".to_string()), "web".to_string())),
            "bitnami/nginx".to_string()
        )
    );
    assert_eq!(
        release_locator("apps/web"),
        (Some("apps".to_string()), "web".to_string())
    );
}

#[test]
fn splits_chart_versions_from_the_right() {
    assert_eq!(
        split_chart_version("external-dns-1.15.2"),
        (Some("external-dns".into()), Some("1.15.2".into()))
    );
    assert_eq!(
        split_chart_version("odd-chart"),
        (Some("odd-chart".into()), None)
    );
}

#[test]
fn parses_release_inventory() {
    let json = r#"[{"name":"web","namespace":"apps","status":"deployed","chart":"nginx-18.2.4","app_version":"1.27.3"}]"#;
    let packages = parse_release_json(json).unwrap();
    assert_eq!(packages.len(), 1);
    assert_eq!(packages[0].name, "web");
    assert_eq!(packages[0].chart.as_deref(), Some("nginx"));
    assert_eq!(packages[0].version.as_deref(), Some("18.2.4"));
    assert_eq!(packages[0].namespace, "apps");
}

#[test]
fn parses_repository_search() {
    let json = r#"[{"name":"bitnami/nginx","version":"18.2.4","app_version":"1.27.3","description":"NGINX server"}]"#;
    let packages = parse_search_json(json).unwrap();
    assert_eq!(packages[0].name, "bitnami/nginx");
    assert_eq!(packages[0].chart.as_deref(), Some("nginx"));
    assert_eq!(packages[0].description.as_deref(), Some("NGINX server"));
}

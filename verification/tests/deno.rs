use snowcone::backends::deno::{bin_dir, factory, list_shims, spec};
use snowcone::request::PackageRequest;
use snowcone::session::{Action, Reply, Step};

#[test]
fn resolves_bin_dir_precedence() {
    assert_eq!(
        bin_dir(Some("/opt/deno"), Some("/home/nick")),
        Some("/opt/deno/bin".to_string())
    );
    assert_eq!(
        bin_dir(None, Some("/home/nick")),
        Some("/home/nick/.deno/bin".to_string())
    );
    assert_eq!(
        bin_dir(Some(""), Some("/home/nick")),
        Some("/home/nick/.deno/bin".to_string())
    );
    assert_eq!(bin_dir(None, None), None);
}

#[test]
fn lists_executable_shims_only() {
    // The caller is asked for the executable files alone, in any order.
    let manager = factory()
        .create(&[Some("/usr/bin/deno".to_string())])
        .unwrap();
    let mut replies = vec![
        Reply {
            success: true,
            stdout: "/opt/deno".to_string(),
            ..Default::default()
        },
        Reply::default(),
    ];
    match manager.list_installed(&replies) {
        Step::Act(Action::Executables(dir)) => assert_eq!(dir, "/opt/deno/bin"),
        other => panic!("{other:?}"),
    }
    replies.push(Reply {
        success: true,
        entries: vec!["vite".to_string(), "deno".to_string(), "cowsay".to_string()],
        ..Default::default()
    });
    let names = list_shims(&replies[2].entries);
    assert_eq!(names, vec!["cowsay".to_string(), "vite".to_string()]);
    match manager.list_installed(&replies) {
        Step::Done(listing) => {
            assert_eq!(listing.packages.len(), 2);
            assert_eq!(listing.packages[0].name, "cowsay");
            assert_eq!(listing.packages[1].name, "vite");
        }
        other => panic!("{other:?}"),
    }
}

#[test]
fn missing_bin_dir_lists_nothing() {
    let manager = factory()
        .create(&[Some("/usr/bin/deno".to_string())])
        .unwrap();
    let replies = vec![
        Reply {
            success: true,
            stdout: "/does-not-exist".to_string(),
            ..Default::default()
        },
        Reply::default(),
        Reply {
            missing: true,
            ..Default::default()
        },
    ];
    match manager.list_installed(&replies) {
        Step::Done(listing) => assert!(listing.packages.is_empty()),
        other => panic!("{other:?}"),
    }
}

#[test]
fn deno_formats_version_pins() {
    assert_eq!(
        spec(&PackageRequest::parse("npm:cowsay@1.6.0")),
        "npm:cowsay@1.6.0"
    );
    assert_eq!(
        spec(&PackageRequest {
            name: "jsr:@std/http".to_string(),
            version: Some("1.0.0".to_string()),
        }),
        "jsr:@std/http@1.0.0"
    );
    assert_eq!(spec(&PackageRequest::parse("npm:cowsay")), "npm:cowsay");
}

use std::cmp::Ordering;

use snowcone::backends::{apt_rpm, cave, clojure, dpkg, gobo, gradle, guix, ivy};
use snowcone::package::InstallState;
use snowcone::pattern::escape;
use snowcone::request::{OpContext, PackageRequest};
use snowcone::session::{Reply, Step};
use snowcone::version::{rank, Rank};

fn printed(stdout: &str) -> Reply {
    Reply {
        success: true,
        stdout: stdout.to_string(),
        ..Default::default()
    }
}

fn owned(names: &[&str]) -> Option<Vec<String>> {
    Some(names.iter().map(|name| name.to_string()).collect())
}

#[test]
fn long_numbers_compare_as_numbers() {
    let (high, low) = ("100000000000000000000", "99999999999999999999");
    assert!(guix::version_newer(high, low));
    assert!(!guix::version_newer(low, high));
    assert_eq!(ivy::compare_versions(high, low), Ordering::Greater);
    assert!(guix::version_newer("1.18446744073709551616", "1.18446744073709551615"));
    assert!(!guix::version_newer("1.00018446744073709551616", "1.18446744073709551616"));
    assert!(guix::version_newer("2", "+1"));
    assert!(guix::version_newer("1a", "10"));
}

#[test]
fn a_longer_version_is_newer() {
    for (long, short) in [
        ("1.2.1", "1.2"),
        ("1.2.", "1.2"),
        ("1.21", "1.2"),
        ("1.2a", "1.2"),
        ("1.0.0", "1.0"),
        ("1.01", "1.0"),
        ("1", ""),
    ] {
        assert_eq!(rank(long, short, ".-_"), Rank::Greater, "{long} {short}");
    }
    assert_eq!(rank("1.00", "1.0", ".-_"), Rank::Equal);
    assert_eq!(rank("1.10", "1.1", ".-_"), Rank::Greater);
}

#[test]
fn the_newest_record_is_unbeaten() {
    let manager = guix::Manager {
        program: "guix".to_string(),
    };
    let records = "name: a\nversion: 1.9\n\nname: b\nversion: 7\n\nname: a\nversion: 1.10\n\n\
                   name: a\nversion: 1.2\n";
    match manager.info("a", &[printed(records), printed("")]) {
        Step::Done(package) => assert_eq!(package.version.as_deref(), Some("1.10")),
        _ => panic!("expected a package"),
    }
}

#[test]
fn the_newest_module_is_unbeaten() {
    let module = |version: &str| ivy::IvyPackage {
        name: "o:m".to_string(),
        version: Some(version.to_string()),
        state: InstallState::Installed,
    };
    let newest = ivy::newest(vec![module("1.9"), module("1.10"), module("1.2")]).unwrap();
    assert_eq!(newest.version.as_deref(), Some("1.10"));
    assert!(ivy::newest(Vec::new()).is_none());
}

#[test]
fn wrapped_fields_are_joined() {
    let packages = guix::parse_records(
        "name: emacs\nversion: 29.1\ndependencies: acl@2.3 alsa-lib@1.2\n+ cairo@1.16\n+ dbus@1.15\n\
         license: GPL 3+,\n+ FDL 1.3+\nsynopsis: The extensible\n+   text editor\n+\n\
         homepage:\n+ https://gnu.org\ndescription: long\n+ longer\n\n+ astray\nname: vim\n",
    );
    assert_eq!(packages.len(), 2);
    assert_eq!(
        packages[0].dependencies,
        owned(&["acl", "alsa-lib", "cairo", "dbus"]),
    );
    assert_eq!(packages[0].license.as_deref(), Some("GPL 3+, FDL 1.3+"));
    assert_eq!(packages[0].description.as_deref(), Some("The extensible text editor"));
    assert_eq!(packages[0].homepage.as_deref(), Some("https://gnu.org"));
    assert_eq!(packages[1].name, "vim");
    assert_eq!(packages[1].description, None);
}

#[test]
fn edn_strings_escape() {
    assert_eq!(clojure::edn_string("a\"b"), "\"a\\\"b\"");
    assert_eq!(clojure::edn_string("a\\b"), "\"a\\\\b\"");
    assert_eq!(clojure::edn_string("io.github.x/y"), "\"io.github.x/y\"");
    assert_eq!(clojure::edn_string(""), "\"\"");
}

#[test]
fn only_the_first_stanza_is_read() {
    assert_eq!(apt_rpm::parse_show("N: x\n\nPackage: y\n").unwrap().name, "y");
    assert!(apt_rpm::parse_show("N: x\n\nHomepage: y\n").is_none());
    let package = apt_rpm::parse_show("\n\nPackage: a\nHomepage: x\n\nHomepage: y\n").unwrap();
    assert_eq!(package.name, "a");
    assert_eq!(package.homepage.as_deref(), Some("x"));
}

#[test]
fn folding_keeps_the_words() {
    let folded = gobo::parse_description("  One\ttwo\n\n three\u{a0}four \n").unwrap();
    assert_eq!(folded, "One two three four");
    assert_eq!(gobo::parse_description(&folded), Some(folded.clone()));
    assert_eq!(gobo::parse_description(""), None);
    assert_eq!(gobo::parse_description(" \n\t "), None);
}

#[test]
fn a_preview_is_not_carried_out() {
    let manager = cave::Manager {
        program: "cave".to_string(),
    };
    let packages = [PackageRequest::parse("app/vim")];
    for dry_run in [false, true] {
        let ctx = OpContext {
            dry_run,
            assume_yes: false,
        };
        for plan in [
            manager.install(&packages, &ctx),
            manager.remove(&packages, &ctx),
            manager.upgrade(&packages, &ctx),
            manager.upgrade(&[], &ctx),
        ] {
            for command in plan.unwrap() {
                assert_eq!(command.args.iter().any(|arg| arg == "-x"), !dry_run);
            }
        }
    }
}

#[test]
fn arrows_name_what_was_resolved() {
    let packages = gradle::parse_dependency_tree(
        "+--- g:a:1.0 -> project :a\n+--- g:b:{strictly 1.5} -> 1.5 (c)\n\
         +--- g:c:{strictly [1.0, 2.0)} -> g:d:1.7\n+--- g:e:1.0 ->\n",
    );
    let read: Vec<(&str, Option<&str>)> = packages
        .iter()
        .map(|package| (package.name.as_str(), package.version.as_deref()))
        .collect();
    assert_eq!(
        read,
        vec![
            ("g:b", Some("1.5")),
            ("g:d", Some("1.7")),
            ("g:e", Some("1.0")),
        ],
    );
}

#[test]
fn sizes_beyond_the_range_are_left_out() {
    let status = |size: &str| {
        let text = format!("Package: a\nStatus: install ok installed\nInstalled-Size: {size}\n");
        dpkg::parse_status(&text).unwrap().installed_size
    };
    assert_eq!(status("2"), Some(2048));
    assert_eq!(status("18014398509481983"), Some(18446744073709550592));
    assert_eq!(status("18014398509481984"), None);
}

#[test]
fn escapes_of_parts_add_up() {
    let (a, b) = ("gtk+", ".x-1");
    assert_eq!(
        escape(&format!("{a}{b}"), "-"),
        format!("{}{}", escape(a, "-"), escape(b, "-")),
    );
    assert_eq!(escape(a, "-"), "gtk\\+");
}

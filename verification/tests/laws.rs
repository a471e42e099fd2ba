use snowcone::backends::{
    appimage, bun, cargo, clojure, conda, deno, easybuild, eepm, emerge, go, gobo, gradle, guix,
    helm, ivy, kiss,
};
use snowcone::command::Cmd;
use snowcone::data::parse_json;
use snowcone::detect::{detect, require, Detection};
use snowcone::error::Error;
use snowcone::order::{sort_set, sort_strings};
use snowcone::package::{InstallState, Package};
use snowcone::pattern::escape;
use snowcone::request::{refuse_pins, PackageRequest};
use snowcone::session::{find_called, run_all, Action, Part, Reply, Step};
use snowcone::version::{rank, split_at_first, split_at_last, Rank};

fn strings(names: &[&str]) -> Vec<String> {
    names.iter().map(|name| name.to_string()).collect()
}

fn listed(names: &[&str]) -> Reply {
    Reply {
        success: true,
        entries: strings(names),
        ..Default::default()
    }
}

fn printed(stdout: &str) -> Reply {
    Reply {
        success: true,
        stdout: stdout.to_string(),
        ..Default::default()
    }
}

#[test]
fn version_splits_lose_nothing() {
    for token in ["py3-requests-2.31.0-r0", "busybox", "-1", "a-1-2-b", "a-"] {
        let (name, version) = split_at_last(token);
        let again = match version {
            Some(version) => format!("{name}-{version}"),
            None => name,
        };
        assert_eq!(again, token);
        let (name, version) = split_at_first(token);
        let again = match version {
            Some(version) => format!("{name}-{version}"),
            None => name,
        };
        assert_eq!(again, token);
    }
    assert_eq!(
        split_at_last("a-1-2-b"),
        ("a-1".to_string(), Some("2-b".to_string()))
    );
    assert_eq!(
        split_at_first("a-1-2-b"),
        ("a".to_string(), Some("1-2-b".to_string()))
    );
}

#[test]
fn ranks_turn_round_with_their_arguments() {
    assert_eq!(rank("1.10", "1.9", "."), Rank::Greater);
    assert_eq!(rank("1.9", "1.10", "."), Rank::Less);
    assert_eq!(rank("1.9", "1.9", "."), Rank::Equal);
    assert_eq!(rank("1.0", "1.00", "."), Rank::Equal);
    // Where only one side is a number the texts are compared.
    assert_eq!(rank("2", "10", "."), Rank::Less);
    assert_eq!(rank("10", "1a", "."), Rank::Less);
    assert_eq!(rank("1a", "2", "."), Rank::Less);
}

#[test]
fn sorting_keeps_every_text() {
    assert_eq!(
        sort_strings(strings(&["b", "a", "B", "a"])),
        strings(&["B", "a", "a", "b"])
    );
    assert_eq!(
        sort_set(strings(&["b", "a", "B", "a"])),
        strings(&["B", "a", "b"])
    );
    assert_eq!(sort_set(Vec::new()), Vec::<String>::new());
}

#[test]
fn requests_are_read_back_as_written() {
    for text in ["ripgrep", "ripgrep@14.1.0", "@scope/pkg", "@scope/pkg@1.0", "a@", "a@b@c"] {
        assert_eq!(PackageRequest::parse(text).written(), text);
    }
    let request = PackageRequest {
        name: "@scope/pkg".to_string(),
        version: Some("1.0".to_string()),
    };
    let read = PackageRequest::parse(&request.written());
    assert_eq!(read.name, request.name);
    assert_eq!(read.version, request.version);
    // A name with an `@` of its own is taken for a pin.
    let odd = PackageRequest {
        name: "python@3.11".to_string(),
        version: None,
    };
    let read = PackageRequest::parse(&odd.written());
    assert_eq!(read.name, "python");
    assert_eq!(read.version.as_deref(), Some("3.11"));
}

#[test]
fn only_pins_are_refused() {
    let plain = [PackageRequest::parse("a"), PackageRequest::parse("b")];
    assert!(refuse_pins(&plain, "no `", "`").is_ok());
    let pinned = [
        PackageRequest::parse("a"),
        PackageRequest::parse("b@1"),
        PackageRequest::parse("c@2"),
    ];
    match refuse_pins(&pinned, "no `", "`") {
        Err(Error::Other(message)) => assert_eq!(message, "no `b@1`"),
        other => panic!("{other:?}"),
    }
}

#[test]
fn escapes_can_be_undone() {
    let escaped = escape("a+b\\c-d", "-_/");
    assert_eq!(escaped, "a\\+b\\\\c-d");
    let mut plain = String::new();
    let mut rest = escaped.chars();
    while let Some(c) = rest.next() {
        plain.push(if c == '\\' { rest.next().unwrap() } else { c });
    }
    assert_eq!(plain, "a+b\\c-d");
}

#[test]
fn lines_are_read_independently() {
    let first = "zlib 1.3.1 1\n";
    let second = "busybox 1.36.1 2\nbaselayout";
    let mut apart: Vec<(String, Option<String>)> = Vec::new();
    for part in [first, second] {
        apart.extend(
            kiss::parse_list(part)
                .into_iter()
                .map(|package| (package.name, package.version)),
        );
    }
    let together: Vec<(String, Option<String>)> = kiss::parse_list(&format!("{first}{second}"))
        .into_iter()
        .map(|package| (package.name, package.version))
        .collect();
    assert_eq!(together, apart);
    assert_eq!(together.len(), 3);
    assert_eq!(together[1].1.as_deref(), Some("1.36.1 2"));
}

#[test]
fn scans_go_on_over_outputs() {
    let first = "- APP | VERSION\n\u{25c6} a | 1 | x | 2\n";
    let second = "\u{25c6} b | 2 | x | 2\n";
    let packages = appimage::parse_files(&format!("{first}{second}"));
    assert_eq!(packages.len(), 2);
    assert_eq!(packages[0].name, "a");
    assert_eq!(packages[1].name, "b");
}

#[test]
fn commands_run_one_after_the_other() {
    let commands = || vec![Cmd::new("a"), Cmd::new("b")];
    let mut replies: Vec<Reply> = Vec::new();
    for expected in ["a", "b"] {
        match run_all(commands(), &replies) {
            Part::Act(Action::Run(cmd)) => assert_eq!(cmd.program, expected),
            other => panic!("{other:?}"),
        }
        replies.push(printed(""));
    }
    replies.push(printed("left over"));
    match run_all(commands(), &replies) {
        Part::Got(_, rest) => {
            assert_eq!(rest.len(), 1);
            assert_eq!(rest[0].stdout, "left over");
        }
        other => panic!("{other:?}"),
    }
}

#[test]
fn a_failing_command_ends_the_run() {
    let commands = vec![Cmd::new("a"), Cmd::new("b"), Cmd::new("c")];
    let replies = vec![
        printed(""),
        Reply {
            code: Some(3),
            stderr: "no".to_string(),
            ..Default::default()
        },
        printed(""),
    ];
    match run_all(commands, &replies) {
        Part::Fail(Error::Failed { code, stderr }) => {
            assert_eq!(code, Some(3));
            assert_eq!(stderr, "no");
        }
        other => panic!("{other:?}"),
    }
}

#[test]
fn packages_are_found_by_their_exact_name() {
    let packages = kiss::parse_list("zlib 1 1\nzlib 2 1\n");
    let found = find_called(&packages, "zlib").unwrap();
    assert_eq!(found.version(), Some("1 1"));
    assert!(find_called(&packages, "zli").is_none());
}

#[test]
fn the_first_program_found_is_driven() {
    let found = [None, Some("/bin/b".to_string()), Some("/bin/c".to_string())];
    match detect(&found, "none") {
        Detection::Available { program } => assert_eq!(program, "/bin/b"),
        other => panic!("{other:?}"),
    }
    assert_eq!(require(&found, "x").unwrap(), "/bin/b");
    match detect(&[None, None], "none") {
        Detection::Unavailable { reason } => assert_eq!(reason, "none"),
        other => panic!("{other:?}"),
    }
    match require(&[None], "x") {
        Err(Error::Unavailable(id)) => assert_eq!(id, "x"),
        other => panic!("{other:?}"),
    }
}

#[test]
fn stripped_texts_have_no_escapes() {
    let stripped = appimage::strip_ansi("\u{1b}[1;32ma\u{1b}[0m\u{1b}b");
    assert!(!stripped.contains('\u{1b}'));
    assert_eq!(appimage::strip_ansi(&stripped), stripped);
}

#[test]
fn easyconfigs_are_named_once() {
    let name = easybuild::easyconfig("zlib-1.2.13");
    assert_eq!(easybuild::easyconfig(&name), name);
}

#[test]
fn dependencies_are_listed_once() {
    let tree = "+--- a:b:1\n+--- a:b:1\n\\--- a:c:1\n";
    let packages = gradle::parse_dependency_tree(tree);
    assert_eq!(packages.len(), 2);
    assert_eq!(packages[0].name, "a:b");
    assert_eq!(packages[1].name, "a:c");
}

#[test]
fn installed_packages_are_listed_by_name() {
    let packages = emerge::scan_vdb(
        &strings(&["sys-apps", "app-misc"]),
        &vec![strings(&["b-1", "a-2"]), strings(&["c-1"])],
    );
    let names: Vec<&str> = packages.iter().map(|package| package.name.as_str()).collect();
    assert_eq!(names, ["app-misc/c", "sys-apps/a", "sys-apps/b"]);
}

#[test]
fn newer_versions_are_strictly_newer() {
    assert!(guix::version_newer("1.2.1", "1.2"));
    assert!(!guix::version_newer("1.2", "1.2.1"));
    assert!(!guix::version_newer("1.2", "1.2"));
    let installed = vec![("a".to_string(), "1.0".to_string())];
    let older = vec![("a".to_string(), "0.9".to_string())];
    assert!(guix::outdated(&installed, &older).is_empty());
}

#[test]
fn shims_are_sorted_without_the_runtime() {
    assert_eq!(
        deno::list_shims(&strings(&["vite", "deno", "cowsay"])),
        strings(&["cowsay", "vite"])
    );
    assert!(deno::list_shims(&strings(&["deno"])).is_empty());
}

#[test]
fn the_highest_version_wins_without_a_link() {
    let versions = || strings(&["1.9", "2.0", "1.10"]);
    assert_eq!(gobo::pick_version(versions(), None).as_deref(), Some("2.0"));
    assert_eq!(
        gobo::pick_version(versions(), Some("1.10")).as_deref(),
        Some("1.10")
    );
    // A link to what is not there does not count.
    assert_eq!(
        gobo::pick_version(versions(), Some("3.0")).as_deref(),
        Some("2.0")
    );
}

#[test]
fn cached_modules_are_listed_in_order() {
    let replies = vec![
        printed("/home/u"),
        listed(&[]),
        listed(&["org"]),
        listed(&["b", "a"]),
        listed(&["ivy-2.0.xml", "ivy-1.0.xml", "jars"]),
        listed(&["ivy-3.0.xml"]),
    ];
    match ivy::scan_cache(&replies) {
        Step::Done(listing) => {
            let found: Vec<(&str, Option<&str>)> = listing
                .packages
                .iter()
                .map(|package| (package.name(), package.version()))
                .collect();
            assert_eq!(
                found,
                [
                    ("org:a", Some("3.0")),
                    ("org:b", Some("1.0")),
                    ("org:b", Some("2.0")),
                ]
            );
        }
        other => panic!("{other:?}"),
    }
}

#[test]
fn pinned_names_split_again() {
    for (name, version) in [("@scope/pkg", Some("1.0.0")), ("prettier", Some("3.3.2")), ("x", None)]
    {
        let request = PackageRequest {
            name: name.to_string(),
            version: version.map(str::to_string),
        };
        assert_eq!(
            bun::split_spec(&bun::spec(&request)),
            (request.name, request.version)
        );
    }
}

#[test]
fn tokens_split_at_the_last_two_dashes() {
    for token in ["gcc-c++-13.2.1-alt2", "ia32-libs", "a-b-c", "-1-2"] {
        let again = match eepm::split_nvr(token) {
            (name, Some(version)) => format!("{name}-{version}"),
            (name, None) => name,
        };
        assert_eq!(again, token);
    }
}

#[test]
fn tool_names_are_their_own_alias() {
    for name in ["io.github.seancorfield/deps-new", "antq", "a/", "a/b/c"] {
        let alias = clojure::tool_alias(name);
        assert_eq!(clojure::tool_alias(&alias), alias);
    }
}

#[test]
fn binaries_are_named_by_one_segment() {
    for module in ["github.com/foo/bar/v2", "a/b/", "v2", "/", ""] {
        assert!(!go::binary_name(module).contains('/'));
    }
    assert_eq!(go::binary_name("github.com/foo/bar/v2/"), "bar");
}

#[test]
fn releases_are_located_without_doubt() {
    let releases = || {
        helm::parse_release_json(
            r#"[{"name":"web","namespace":"a","chart":"nginx-1.0"},
                {"name":"web","namespace":"b","chart":"nginx-1.0"},
                {"name":"db","namespace":"b","chart":"pg-2.0"}]"#,
        )
        .unwrap()
    };
    assert_eq!(helm::locate(releases(), "b/web").unwrap().namespace, "b");
    assert_eq!(helm::locate(releases(), "db").unwrap().name, "db");
    match helm::locate(releases(), "web") {
        Err(Error::Other(message)) => assert!(message.contains("multiple namespaces")),
        other => panic!("{other:?}"),
    }
    match helm::locate(releases(), "c/web") {
        Err(Error::NotFound(name)) => assert_eq!(name, "c/web"),
        other => panic!("{other:?}"),
    }
}

#[test]
fn planned_upgrades_change_the_version() {
    let json = parse_json(
        r#"{"actions": {"UNLINK": [{"name": "a", "version": "1"}, {"name": "b", "version": "1"}],
            "LINK": [{"name": "a", "version": "2"}, {"name": "b", "version": "1"},
                     {"name": "c", "version": "1"}]}}"#,
    )
    .unwrap();
    let packages = conda::parse_outdated(&json);
    assert_eq!(packages.len(), 1);
    assert_eq!(packages[0].name, "a");
    assert_eq!(packages[0].version.as_deref(), Some("1"));
    assert_eq!(packages[0].latest_version.as_deref(), Some("2"));
    assert_eq!(packages[0].state, InstallState::Upgradable);
}

#[test]
fn patterns_are_searched_for_as_they_are() {
    let pattern = kiss::search_pattern("zlib");
    assert_eq!(kiss::search_pattern(&pattern), pattern);
}

#[test]
fn sources_other_than_the_registry_stay() {
    let manager = cargo::factory()
        .create(&[Some("/bin/cargo".to_string())])
        .unwrap();
    let replies = [printed(
        "fd-find v9.0.0:\n    fd\nmine v0.1.0 (/home/u/mine):\n    mine\nripgrep v14.1.0:\n    rg\n",
    )];
    match manager.upgrade(&[], &Default::default(), &replies) {
        Step::Act(Action::Run(cmd)) => {
            assert_eq!(cmd.args, strings(&["install", "fd-find", "ripgrep"]));
        }
        other => panic!("{other:?}"),
    }
}

use snowcone::backends::{
    brew, composer, conan, conda, cpan, emerge, eopkg, fpm, helm, julia, leiningen,
};
use snowcone::data::{parse_json, parse_toml, Data};
use snowcone::error::Error;
use snowcone::package::{InstallState, Package};
use snowcone::path::join;
use snowcone::session::Reply;
use snowcone::text::{chars, decimal, fold, number, trim, words};

#[test]
fn json_is_opened_level_by_level() {
    let data = parse_json(
        r#"{"b": [1, -1, 1.5, 18446744073709551615, "x", true, null], "a": {"c": "d"}, "n": 7}"#,
    )
    .unwrap();
    assert_eq!(data.find("n").unwrap().count(), Some(7));
    let items = data.items_of("b").unwrap();
    assert_eq!(items.len(), 7);
    assert_eq!(items[0].count(), Some(1));
    assert_eq!(items[1].count(), None);
    assert_eq!(items[2].count(), None);
    assert_eq!(items[3].count(), Some(u64::MAX));
    assert_eq!(items[4].text().map(String::as_str), Some("x"));
    assert!(matches!(items[5], Data::Other));
    assert!(matches!(items[6], Data::Other));
    assert_eq!(
        data.find("a").unwrap().string_of("c").as_deref(),
        Some("d")
    );
    assert!(data.find("z").is_none());
    let keys: Vec<&str> = data
        .entries()
        .unwrap()
        .iter()
        .map(|(key, _)| key.as_str())
        .collect();
    assert_eq!(keys, ["a", "b", "n"]);
}

#[test]
fn bad_json_is_reported_in_words() {
    let message = parse_json("{").unwrap_err();
    assert!(message.contains("EOF"));
    match brew::parse_json("info output", "{") {
        Err(Error::Parse { what, detail }) => {
            assert_eq!(what, "brew info output");
            assert_eq!(detail, message);
        }
        other => panic!("{other:?}"),
    }
    match helm::parse_release_json("[") {
        Err(Error::Parse { detail, .. }) => assert_eq!(detail, parse_json("[").unwrap_err()),
        other => panic!("{other:?}"),
    }
    match conan::parse_list_json("nope", InstallState::Installed) {
        Err(Error::Parse { .. }) => {}
        other => panic!("{other:?}"),
    }
}

#[test]
fn toml_is_opened_level_by_level() {
    let data = parse_toml("a = \"b\"\nn = 1\nt = true\nd = 1979-05-27\nx = 1.5\nl = [\"c\"]\n[s]\nk = \"v\"\n")
        .unwrap();
    assert_eq!(data.string_of("a").as_deref(), Some("b"));
    for key in ["n", "t", "d", "x"] {
        assert!(matches!(data.find(key), Some(Data::Other)));
    }
    assert_eq!(data.items_of("l").unwrap().len(), 1);
    assert_eq!(
        data.find("s").unwrap().string_of("k").as_deref(),
        Some("v")
    );
    assert!(parse_toml("a = ").is_err());
}

#[test]
fn fpm_caches_are_read() {
    let packages = fpm::parse_cache(
        "[dependencies]\n[dependencies.demo]\nproj-dir = \".\"\n\
         [dependencies.stdlib]\nversion = \"0.5.0\"\nproj-dir = \"build/dependencies/stdlib\"\n\
         [dependencies.test-drive]\nrevision = \"abc123\"\n[dependencies.empty]\nrevision = \"\"\n",
    )
    .unwrap();
    let found: Vec<(&str, Option<&str>)> = packages
        .iter()
        .map(|package| (package.name(), package.version()))
        .collect();
    assert_eq!(
        found,
        [
            ("empty", None),
            ("stdlib", Some("0.5.0")),
            ("test-drive", Some("abc123")),
        ]
    );
    match fpm::parse_cache("x = 1\n") {
        Err(Error::Parse { what, detail }) => {
            assert_eq!(what, "fpm dependency cache");
            assert_eq!(detail, "missing [dependencies] table");
        }
        other => panic!("{other:?}"),
    }
    assert!(fpm::cache_rows(Err("broken".to_string())).is_err());
}

#[test]
fn sizes_are_exact_where_they_can_be() {
    assert_eq!(emerge::parse_size("2,352 KiB"), Some(2_408_448));
    assert_eq!(emerge::parse_size("1.5 MiB"), Some(1_572_864));
    assert_eq!(emerge::parse_size("0.1 KiB"), Some(102));
    assert_eq!(eopkg::parse_size("4.45 MB"), Some(4_666_163));
    assert_eq!(eopkg::parse_size("0 B"), Some(0));
    assert_eq!(eopkg::parse_size("7 TB"), None);
    assert_eq!(eopkg::parse_size(""), None);
    assert_eq!(eopkg::parse_size("x KB"), None);
}

#[test]
fn sizes_agree_with_double_precision() {
    let mut numbers: Vec<String> = Vec::new();
    for number in [
        "0", "0.0", "1", ".5", "5.", "0.3", "4.45", "123.456", "9007199254740993",
        "9007199254740992.999999", "0.99999999999999999", "1e3", "1E-3", "12345678901234567890",
        "17179869183.99999999999999", "1e30", "1e400", "1e-400", "inf", "NaN", "-1", "-0.5", "+2",
        "18014398509481985", "0.000976562499999999999999", "0.0009765625",
    ] {
        numbers.push(number.to_string());
    }
    for n in 0..200u64 {
        numbers.push(format!("{}.{:03}", n * 37, (n * 131) % 1000));
    }
    for number in &numbers {
        let parsed: f64 = number.parse().unwrap();
        assert_eq!(
            eopkg::parse_size(&format!("{number} KB")),
            Some((parsed * 1024.0) as u64),
            "{number}"
        );
        assert_eq!(
            eopkg::parse_size(&format!("{number} B")),
            Some(parsed as u64),
            "{number}"
        );
    }
}

#[test]
fn modules_in_upper_case_are_namespaces() {
    let packages = cpan::parse_namespaces("JSON\nDBI::Shell\npragma\n\u{c4}\n");
    let names: Vec<&str> = packages.iter().map(|package| package.name()).collect();
    assert!(names.contains(&"JSON"));
    assert!(names.contains(&"DBI::Shell"));
    assert!(names.contains(&"\u{c4}"));
    assert!(!names.contains(&"pragma"));
}

#[test]
fn channel_searches_tell_no_match_from_failure() {
    let reply = Reply {
        code: Some(1),
        stderr: "broken".to_string(),
        ..Default::default()
    };
    let no_match = parse_json(r#"{"exception_name": "PackagesNotFoundError"}"#);
    assert!(conda::read_channels(&no_match, &reply).unwrap().is_empty());
    match conda::read_channels(&Err("bad".to_string()), &reply) {
        Err(Error::Failed { code, stderr }) => {
            assert_eq!(code, Some(1));
            assert_eq!(stderr, "broken");
        }
        other => panic!("{other:?}"),
    }
}

#[test]
fn missing_parts_read_as_nothing() {
    let data = parse_json("{}").unwrap();
    assert!(brew::parse_info(&data).is_none());
    assert!(brew::parse_outdated(&data).is_empty());
    assert!(composer::parse_show_json(&data).is_empty());
    assert!(conda::parse_outdated(&data).is_empty());
    assert!(julia::parse_list("").is_empty());
    assert!(leiningen::parse_search("Searching ...\n").is_empty());
}

#[test]
fn texts_are_taken_apart() {
    assert_eq!(number(&chars("18446744073709551615")), Some(u64::MAX));
    assert_eq!(number(&chars("18446744073709551616")), None);
    assert_eq!(number(&chars("+7")), Some(7));
    assert_eq!(number(&chars("")), None);
    assert_eq!(number(&chars("-1")), None);
    assert_eq!(decimal(0), "0");
    assert_eq!(decimal(1024), "1024");
    assert_eq!(trim(&chars("\u{3000} a b\t")), ['a', ' ', 'b']);
    assert_eq!(words(&chars(" a  bc ")).len(), 2);
    assert_eq!(fold(&chars(" a\n b ")).as_deref(), Some("a b"));
    assert_eq!(fold(&chars(" \n")), None);
    assert_eq!(join("/a", "b"), "/a/b");
    assert_eq!(join("/a/", "b"), "/a/b");
    assert_eq!(join("/a", "/b"), "/b");
}

#[test]
fn accessors_tell_what_the_fields_hold() {
    let package = brew::BrewPackage {
        name: "ripgrep".to_string(),
        version: Some("14.1.0".to_string()),
        ..Default::default()
    };
    assert_eq!(package.manager(), "brew");
    assert_eq!(package.name(), "ripgrep");
    assert_eq!(package.version(), Some("14.1.0"));
    assert_eq!(package.latest_version(), None);
    assert_eq!(package.state(), InstallState::Unknown);
    assert_eq!(package.description(), None);
    assert_eq!(package.homepage(), None);
    assert_eq!(package.license(), None);
    assert_eq!(package.origin(), None);
    assert_eq!(package.architecture(), None);
    assert!(package.dependencies().is_none());
    assert_eq!(package.download_size(), None);
    assert_eq!(package.installed_size(), None);
}

use snowcone::backends::{apk, dotnet, fpm, go, guix, helm, ivy, kiss};
use snowcone::error::Error;
use snowcone::package::InstallState;
use snowcone::request::{OpContext, PackageRequest};
use snowcone::session::{Action, Reply, Step};

fn found(program: &str) -> Vec<Option<String>> {
    vec![Some(program.to_string())]
}

fn printed(stdout: &str) -> Reply {
    Reply {
        success: true,
        stdout: stdout.to_string(),
        ..Default::default()
    }
}

fn no() -> Reply {
    Reply {
        code: Some(1),
        stderr: "failed".to_string(),
        ..Default::default()
    }
}

fn dry() -> OpContext {
    OpContext {
        dry_run: true,
        assume_yes: false,
    }
}

#[test]
fn listings_ask_in_the_c_locale() {
    let manager = apk::factory().create(&found("apk")).unwrap();
    match manager.list_installed(&[]) {
        Step::Act(Action::Query(cmd)) => {
            assert_eq!(cmd.envs, [("LC_ALL".to_string(), "C".to_string())]);
            assert!(!cmd.elevated);
        }
        other => panic!("{other:?}"),
    }
    match manager.list_installed(&[no()]) {
        Step::Fail(Error::Failed { code, stderr }) => {
            assert_eq!(code, Some(1));
            assert_eq!(stderr, "failed");
        }
        other => panic!("{other:?}"),
    }
    match manager.info("zlib", &[no(), no()]) {
        Step::Fail(Error::NotFound(name)) => assert_eq!(name, "zlib"),
        other => panic!("{other:?}"),
    }
}

#[test]
fn ports_are_described_from_three_sources() {
    let manager = kiss::factory().create(&found("kiss")).unwrap();
    let mut replies = vec![printed("/repo/core/zlib\n/var/db/kiss/installed/zlib\n")];
    match manager.info("zlib", &replies) {
        Step::Act(Action::ReadFile(path)) => assert_eq!(path, "/repo/core/zlib/version"),
        other => panic!("{other:?}"),
    }
    replies.push(printed("1.3.1 2\n"));
    match manager.info("zlib", &replies) {
        Step::Act(Action::Query(cmd)) => assert_eq!(cmd.args, ["l", "zlib"]),
        other => panic!("{other:?}"),
    }
    replies.push(printed("zlib 1.3.0 1\n"));
    match manager.info("zlib", &replies) {
        Step::Done(package) => {
            assert_eq!(package.origin.as_deref(), Some("core"));
            assert_eq!(package.version.as_deref(), Some("1.3.0 1"));
            assert_eq!(package.latest_version.as_deref(), Some("1.3.1 2"));
            assert_eq!(package.state, InstallState::Installed);
        }
        other => panic!("{other:?}"),
    }
}

#[test]
fn outdated_packages_are_the_difference_of_two_listings() {
    let manager = guix::factory().create(&found("guix")).unwrap();
    let replies = [
        printed("ripgrep\t13.0.0\tout\t/x\nhello\t2.12\tout\t/y\n"),
        printed("ripgrep\t14.1.0\tout\t/x\nhello\t2.12\tout\t/y\n"),
    ];
    match manager.list_outdated(&replies) {
        Step::Done(listing) => {
            assert_eq!(listing.packages.len(), 1);
            assert_eq!(listing.packages[0].name, "ripgrep");
        }
        other => panic!("{other:?}"),
    }
}

#[test]
fn releases_are_listed_page_by_page() {
    let manager = helm::factory().create(&found("helm")).unwrap();
    let rows: Vec<String> = (0..256)
        .map(|i| format!(r#"{{"name":"r{i}","namespace":"n","chart":"c-1.0"}}"#))
        .collect();
    let mut replies = vec![printed(&format!("[{}]", rows.join(",")))];
    match manager.list_installed(&replies) {
        Step::Act(Action::Query(cmd)) => {
            assert!(cmd.args.contains(&"--offset=256".to_string()));
        }
        other => panic!("{other:?}"),
    }
    replies.push(printed(r#"[{"name":"last","namespace":"n","chart":"c-1.0"}]"#));
    match manager.list_installed(&replies) {
        Step::Done(listing) => {
            assert_eq!(listing.packages.len(), 257);
            assert_eq!(listing.packages[256].name, "last");
        }
        other => panic!("{other:?}"),
    }
}

#[test]
fn releases_are_removed_in_their_namespace() {
    let manager = helm::factory().create(&found("helm")).unwrap();
    let packages = [PackageRequest::parse("web")];
    let replies = [printed(r#"[{"name":"web","namespace":"apps","chart":"nginx-1.0"}]"#)];
    match manager.remove(&packages, &dry(), &replies) {
        Step::Act(Action::Run(cmd)) => assert_eq!(
            cmd.args,
            ["uninstall", "web", "--namespace", "apps", "--dry-run"]
        ),
        other => panic!("{other:?}"),
    }
}

#[test]
fn binaries_are_removed_unless_it_is_dry() {
    let manager = go::factory().create(&found("go")).unwrap();
    let packages = [PackageRequest::parse("github.com/junegunn/fzf")];
    let mut replies = vec![printed("/home/u/bin\n/home/u/go\n")];
    match manager.remove(&packages, &dry(), &replies) {
        Step::Act(Action::IsFile(path)) => assert_eq!(path, "/home/u/bin/fzf"),
        other => panic!("{other:?}"),
    }
    replies.push(printed(""));
    match manager.remove(&packages, &dry(), &replies) {
        Step::Act(Action::Report(message)) => {
            assert_eq!(message, "would remove /home/u/bin/fzf");
        }
        other => panic!("{other:?}"),
    }
    match manager.remove(&packages, &OpContext::default(), &replies) {
        Step::Act(Action::RemoveFile(path)) => assert_eq!(path, "/home/u/bin/fzf"),
        other => panic!("{other:?}"),
    }
    replies[1].success = false;
    match manager.remove(&packages, &OpContext::default(), &replies) {
        Step::Fail(Error::NotFound(name)) => assert_eq!(name, "github.com/junegunn/fzf"),
        other => panic!("{other:?}"),
    }
}

#[test]
fn modules_are_evicted_from_the_cache() {
    let manager = ivy::factory().create();
    let packages = [PackageRequest::parse("org.apache.ant:ant")];
    let mut replies = vec![printed("/home/u")];
    match manager.remove(&packages, &OpContext::default(), &replies) {
        Step::Act(Action::IsDirectory(path)) => {
            assert_eq!(path, "/home/u/.ivy2/cache/org.apache.ant/ant");
        }
        other => panic!("{other:?}"),
    }
    replies.push(printed(""));
    match manager.remove(&packages, &OpContext::default(), &replies) {
        Step::Act(Action::RemoveTree(path)) => {
            assert_eq!(path, "/home/u/.ivy2/cache/org.apache.ant/ant");
        }
        other => panic!("{other:?}"),
    }
    replies.push(printed(""));
    match manager.remove(&packages, &OpContext::default(), &replies) {
        Step::Act(Action::Report(message)) => {
            assert_eq!(message, "removed /home/u/.ivy2/cache/org.apache.ant/ant");
        }
        other => panic!("{other:?}"),
    }
    replies.push(printed(""));
    assert!(matches!(
        manager.remove(&packages, &OpContext::default(), &replies),
        Step::Done(_)
    ));
    match manager.list_installed(&[no()]) {
        Step::Fail(Error::Other(message)) => assert_eq!(message, "ivy: HOME is not set"),
        other => panic!("{other:?}"),
    }
}

#[test]
fn the_newest_cached_revision_is_described() {
    let manager = ivy::factory().create();
    let entries = |names: &[&str]| Reply {
        success: true,
        entries: names.iter().map(|name| name.to_string()).collect(),
        ..Default::default()
    };
    let replies = [
        printed("/home/u"),
        printed(""),
        entries(&["org"]),
        entries(&["m"]),
        entries(&["ivy-1.9.xml", "ivy-1.10.xml"]),
    ];
    match manager.info("org:m", &replies) {
        Step::Done(package) => assert_eq!(package.version.as_deref(), Some("1.10")),
        other => panic!("{other:?}"),
    }
    match manager.info("org:m:1.9", &replies) {
        Step::Done(package) => assert_eq!(package.version.as_deref(), Some("1.9")),
        other => panic!("{other:?}"),
    }
    match manager.info("org:x", &replies) {
        Step::Fail(Error::NotFound(name)) => assert_eq!(name, "org:x"),
        other => panic!("{other:?}"),
    }
}

#[test]
fn tools_are_updated_one_by_one_on_old_sdks() {
    let manager = dotnet::factory().create(&found("dotnet")).unwrap();
    let context = OpContext::default();
    match manager.upgrade(&[], &context, &[]) {
        Step::Act(Action::Attempt(cmd)) => assert_eq!(cmd.args.last().unwrap(), "--all"),
        other => panic!("{other:?}"),
    }
    let table = "Package Id      Version      Commands\n\
                 -------------------------------------\n\
                 dotnet-ef       8.0.0        dotnet-ef\n";
    let replies = [no(), printed(table)];
    match manager.upgrade(&[], &context, &replies) {
        Step::Act(Action::Run(cmd)) => {
            assert_eq!(cmd.args, ["tool", "update", "--global", "dotnet-ef"]);
        }
        other => panic!("{other:?}"),
    }
    assert!(matches!(
        manager.upgrade(&[], &context, &[printed("")]),
        Step::Done(_)
    ));
}

#[test]
fn caches_are_found_through_the_environment() {
    let manager = fpm::factory().create(&found("fpm")).unwrap();
    match manager.list_installed(&[no()]) {
        Step::Act(Action::ReadFile(path)) => assert_eq!(path, "build/cache.toml"),
        other => panic!("{other:?}"),
    }
    match manager.list_installed(&[printed("/tmp/out")]) {
        Step::Act(Action::ReadFile(path)) => assert_eq!(path, "/tmp/out/cache.toml"),
        other => panic!("{other:?}"),
    }
    match manager.list_installed(&[no(), no()]) {
        Step::Fail(Error::Other(message)) => assert_eq!(
            message,
            "fpm: cannot read resolved dependency cache `build/cache.toml`: failed; run `fpm update --fetch-only` first"
        ),
        other => panic!("{other:?}"),
    }
}

use snowcone::backends::gobo::{factory, parse_dependencies, parse_description, pick_version, reject_pins};
use snowcone::package::InstallState;
use snowcone::request::PackageRequest;
use snowcone::session::{Action, Reply, Step};

#[test]
fn reads_programs_tree() {
    let manager = factory()
        .create(
            Some("/bin/Compile".to_string()),
            Some("/bin/RemoveProgram".to_string()),
        )
        .unwrap();
    let listed = |names: Vec<&str>| Reply {
        success: true,
        entries: names.into_iter().map(str::to_string).collect(),
        ..Default::default()
    };
    let mut replies = Vec::new();
    match manager.list_installed(&replies) {
        Step::Act(Action::Directories { path, links, .. }) => {
            assert_eq!(path, "/Programs");
            assert!(links);
        }
        other => panic!("{other:?}"),
    }
    // The directories alone are listed, in any order.
    replies.push(listed(vec!["Zsh", "Bash"]));
    match manager.list_installed(&replies) {
        Step::Act(Action::Directories { path, .. }) => assert_eq!(path, "/Programs/Zsh"),
        other => panic!("{other:?}"),
    }
    replies.push(listed(vec!["0.1"]));
    match manager.list_installed(&replies) {
        Step::Act(Action::ReadLink(path)) => assert_eq!(path, "/Programs/Zsh/Current"),
        other => panic!("{other:?}"),
    }
    replies.push(Reply::default());
    replies.push(listed(vec!["5.1", "5.2", "Settings"]));
    replies.push(Reply {
        success: true,
        stdout: "5.1".to_string(),
        ..Default::default()
    });
    let packages = match manager.list_installed(&replies) {
        Step::Done(listing) => listing.packages,
        other => panic!("{other:?}"),
    };
    assert_eq!(packages.len(), 2);
    assert_eq!(packages[0].name, "Bash");
    assert_eq!(packages[0].version.as_deref(), Some("5.1"));
    assert_eq!(packages[0].state, InstallState::Installed);
    assert_eq!(packages[1].name, "Zsh");
    assert_eq!(packages[1].version.as_deref(), Some("0.1"));
}

#[test]
fn current_link_wins_version_pick() {
    assert_eq!(
        pick_version(vec!["5.1".into(), "5.2".into()], Some("5.1")),
        Some("5.1".to_string())
    );
    assert_eq!(
        pick_version(vec!["5.1".into(), "5.2".into()], None),
        Some("5.2".to_string())
    );
    assert_eq!(pick_version(Vec::new(), None), None);
}

#[test]
fn parses_description_resource() {
    assert_eq!(
        parse_description("The GNU Bourne\nAgain SHell.\n").as_deref(),
        Some("The GNU Bourne Again SHell.")
    );
    assert_eq!(parse_description("  \n"), None);
}

#[test]
fn parses_dependencies_resource() {
    let text = "\
# build-time notes
Glibc >= 2.30
Ncurses
";
    assert_eq!(
        parse_dependencies(text),
        Some(vec!["Glibc".to_string(), "Ncurses".to_string()])
    );
    assert_eq!(parse_dependencies("# nothing\n"), None);
}

#[test]
fn gobo_rejects_version_pins() {
    assert!(reject_pins(&[PackageRequest::parse("Bash@5.2")]).is_err());
    assert!(reject_pins(&[PackageRequest::parse("Bash")]).is_ok());
}

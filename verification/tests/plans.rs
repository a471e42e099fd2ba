use snowcone::backends::{
    apk, apt_rpm, aura, bauh, bundler, cabal, cargo_binstall, cave, conan, cpan, cpanm, deno, dnf,
    dpkg, easybuild, eepm, emerge, flatpak, fpm, gem, gobo, gradle, haxelib, ivy, julia, kiss,
    leiningen,
};
use snowcone::command::{Cmd, Plan};
use snowcone::error::Error;
use snowcone::profile::{ManagerKind, Operation};
use snowcone::request::{OpContext, PackageRequest};
use snowcone::session::{Action, Reply, Step};

fn found(program: &str) -> Vec<Option<String>> {
    vec![Some(program.to_string())]
}

fn requests(texts: &[&str]) -> Vec<PackageRequest> {
    texts.iter().map(|text| PackageRequest::parse(text)).collect()
}

fn plain() -> OpContext {
    OpContext::default()
}

fn dry() -> OpContext {
    OpContext {
        dry_run: true,
        assume_yes: false,
    }
}

fn yes() -> OpContext {
    OpContext {
        dry_run: false,
        assume_yes: true,
    }
}

fn only(plan: Plan) -> Cmd {
    let mut commands = plan.unwrap();
    assert_eq!(commands.len(), 1);
    commands.remove(0)
}

fn refusal(plan: Plan) -> String {
    match plan {
        Err(Error::Other(message)) => message,
        other => panic!("{other:?}"),
    }
}

#[test]
fn apk_mutations_are_elevated() {
    let manager = apk::factory().create(&found("/sbin/apk")).unwrap();
    let cmd = only(manager.install(&requests(&["zlib@1.3", "curl"]), &plain()));
    assert_eq!(cmd.program, "/sbin/apk");
    assert_eq!(cmd.args, ["add", "zlib=1.3", "curl"]);
    assert!(cmd.elevated);
    assert!(cmd.envs.is_empty());
    let cmd = only(manager.remove(&requests(&["zlib@1.3"]), &dry()));
    assert_eq!(cmd.args, ["del", "--simulate", "zlib"]);
    let cmd = only(manager.upgrade(&requests(&["zlib"]), &plain()));
    assert_eq!(cmd.args, ["add", "--upgrade", "zlib"]);
    let cmd = only(manager.upgrade(&[], &plain()));
    assert_eq!(cmd.args, ["upgrade"]);
    assert_eq!(only(manager.refresh(&plain())).args, ["update"]);
    assert_eq!(refusal(manager.refresh(&dry())), "apk: refresh has no dry-run mode");
    let profile = manager.profile();
    assert_eq!(profile.id, "apk");
    assert_eq!(profile.kind, ManagerKind::System);
    assert!(profile.capabilities.pin_version);
    assert!(profile.needs_elevation(Operation::Install));
    assert!(!profile.needs_elevation(Operation::Search));
}

#[test]
fn kiss_builds_before_it_installs() {
    let manager = kiss::factory().create(&found("kiss")).unwrap();
    let commands = manager.install(&requests(&["zlib", "curl"]), &yes()).unwrap();
    assert_eq!(commands.len(), 2);
    assert_eq!(commands[0].args, ["b", "zlib", "curl"]);
    assert_eq!(commands[1].args, ["i", "zlib", "curl"]);
    for cmd in &commands {
        assert!(!cmd.elevated);
        assert_eq!(
            cmd.envs,
            [("KISS_PROMPT".to_string(), "0".to_string())]
        );
    }
    assert_eq!(only(manager.upgrade(&[], &plain())).args, ["u"]);
    assert!(manager.profile().needs_elevation(Operation::Install));
    assert_eq!(
        refusal(manager.install(&requests(&["zlib@1"]), &plain())),
        "kiss: `zlib@1` pins a version, but kiss builds whatever version the repository ports carry"
    );
    assert_eq!(
        refusal(manager.remove(&requests(&["zlib"]), &dry())),
        "kiss: remove has no dry-run mode"
    );
}

#[test]
fn cave_executes_unless_it_is_dry() {
    let manager = cave::factory().create(&found("cave")).unwrap();
    let targets = requests(&["sys-apps/ripgrep@14.1.0"]);
    assert_eq!(
        only(manager.install(&targets, &plain())).args,
        ["resolve", "-x", "=sys-apps/ripgrep-14.1.0"]
    );
    assert_eq!(
        only(manager.install(&targets, &dry())).args,
        ["resolve", "=sys-apps/ripgrep-14.1.0"]
    );
    assert_eq!(only(manager.upgrade(&[], &plain())).args, ["resolve", "-x", "world"]);
}

#[test]
fn cabal_pins_by_constraints() {
    let manager = cabal::factory().create(&found("cabal")).unwrap();
    assert_eq!(
        only(manager.install(&requests(&["hlint@3.8", "shake"]), &yes())).args,
        [
            "install",
            "--overwrite-policy=always",
            "--constraint=hlint==3.8",
            "hlint",
            "shake"
        ]
    );
    match manager.remove(&requests(&["hlint"]), &plain()) {
        Err(Error::Unsupported { manager, operation }) => {
            assert_eq!(manager, "cabal");
            assert_eq!(operation, Operation::Remove);
        }
        other => panic!("{other:?}"),
    }
    assert!(manager.upgrade(&[], &plain()).is_err());
}

#[test]
fn dnf_refuses_dry_runs() {
    let manager = dnf::factory()
        .create(&[None, Some("/usr/bin/dnf".to_string())])
        .unwrap();
    assert_eq!(manager.program, "/usr/bin/dnf");
    let cmd = only(manager.install(&requests(&["ripgrep@14.1.0"]), &yes()));
    assert_eq!(cmd.args, ["install", "-y", "ripgrep-14.1.0"]);
    assert!(cmd.elevated);
    assert_eq!(
        refusal(manager.install(&requests(&["ripgrep"]), &dry())),
        "dnf: install has no dry-run mode shared by dnf4 and dnf5"
    );
}

#[test]
fn flatpak_is_never_elevated() {
    let manager = flatpak::factory().create(&found("flatpak")).unwrap();
    let cmd = only(manager.install(&requests(&["org.gnome.Calculator"]), &yes()));
    assert_eq!(
        cmd.args,
        ["install", "--noninteractive", "--assumeyes", "org.gnome.Calculator"]
    );
    assert!(!cmd.elevated);
    assert!(manager.install(&requests(&["a@1"]), &plain()).is_err());
}

#[test]
fn gems_are_installed_one_by_one() {
    let manager = gem::factory().create(&found("gem")).unwrap();
    let commands = manager
        .install(&requests(&["rails@7.1.2", "rake"]), &dry())
        .unwrap();
    assert_eq!(commands.len(), 2);
    for cmd in &commands {
        assert!(cmd.args.contains(&"--explain".to_string()));
    }
    assert!(commands[0].args.contains(&"7.1.2".to_string()));
    let cmd = only(manager.remove(&requests(&["rake"]), &yes()));
    assert_eq!(cmd.args, ["uninstall", "-a", "-x", "-I", "rake"]);
    assert!(manager.remove(&requests(&["rake"]), &dry()).is_err());
}

#[test]
fn haxelib_refuses_dry_runs_with_something_to_do() {
    let manager = haxelib::factory().create(&found("haxelib")).unwrap();
    assert_eq!(
        refusal(manager.install(&requests(&["hxcpp"]), &dry())),
        "haxelib: install has no dry-run mode"
    );
    assert!(manager.install(&[], &dry()).unwrap().is_empty());
    assert_eq!(
        only(manager.install(&requests(&["hxcpp@4.3.2"]), &yes())).args,
        ["--always", "install", "hxcpp", "4.3.2"]
    );
}

#[test]
fn perl_scripts_are_told_of_dry_runs() {
    let variable = |cmd: &Cmd| {
        cmd.envs
            .iter()
            .find(|(key, _)| key == "SNOWCONE_DRY_RUN")
            .map(|(_, value)| value.clone())
    };
    let manager = cpan::factory()
        .create(Some("cpan".to_string()), Some("perl".to_string()))
        .unwrap();
    let cmd = only(manager.remove(&requests(&["DBI"]), &dry()));
    assert_eq!(cmd.program, "perl");
    assert_eq!(variable(&cmd).as_deref(), Some("1"));
    assert_eq!(cmd.args.last().unwrap(), "DBI");
    let cmd = only(manager.remove(&requests(&["DBI"]), &plain()));
    assert_eq!(variable(&cmd).as_deref(), Some(""));
    let manager = cpanm::factory()
        .create(Some("cpanm".to_string()), Some("perl".to_string()))
        .unwrap();
    let cmd = only(manager.remove(&requests(&["DBI"]), &dry()));
    assert_eq!(variable(&cmd).as_deref(), Some("1"));
}

#[test]
fn conan_removes_by_pattern() {
    let manager = conan::factory().create(&found("conan")).unwrap();
    let commands = manager
        .remove(&requests(&["zlib", "fmt@10.2.1"]), &dry())
        .unwrap();
    assert_eq!(commands.len(), 2);
    assert_eq!(commands[0].args, ["remove", "zlib/*", "--confirm", "--dry-run"]);
    assert_eq!(commands[1].args[1], "fmt/10.2.1");
}

#[test]
fn eepm_simulates_installs() {
    let manager = eepm::factory().create(&found("epm")).unwrap();
    assert_eq!(
        only(manager.install(&requests(&["zsh"]), &dry())).args,
        ["simulate", "zsh"]
    );
    assert_eq!(
        only(manager.install(&requests(&["zsh"]), &yes())).args,
        ["--auto", "install", "zsh"]
    );
    assert_eq!(
        only(manager.remove(&requests(&["zsh"]), &dry())).args,
        ["--dry-run", "remove", "zsh"]
    );
}

#[test]
fn apt_rpm_drives_apt_get() {
    let factory = apt_rpm::factory();
    let manager = factory
        .create(
            Some("apt-get".to_string()),
            Some("apt-cache".to_string()),
            Some("rpm".to_string()),
        )
        .unwrap();
    let cmd = only(manager.install(&requests(&["zsh@5.9-alt1"]), &yes()));
    assert_eq!(cmd.program, "apt-get");
    assert!(cmd.elevated);
    assert!(cmd.args.contains(&"-y".to_string()));
    assert!(cmd.args.contains(&"zsh=5.9-alt1".to_string()));
    assert!(factory
        .create(Some("apt-get".to_string()), None, Some("rpm".to_string()))
        .is_err());
}

#[test]
fn emerge_pretends() {
    let manager = emerge::factory().create(&found("emerge")).unwrap();
    let cmd = only(manager.install(&requests(&["sys-apps/ripgrep"]), &dry()));
    assert!(cmd.args.contains(&"--pretend".to_string()));
    let cmd = only(manager.remove(&requests(&["sys-apps/ripgrep"]), &plain()));
    assert!(cmd.args.contains(&"--depclean".to_string()));
    assert!(!cmd.args.contains(&"--pretend".to_string()));
}

#[test]
fn dpkg_installs_files() {
    let manager = dpkg::factory()
        .create(Some("dpkg".to_string()), Some("dpkg-query".to_string()))
        .unwrap();
    let cmd = only(manager.install(&requests(&["/tmp/a.deb"]), &dry()));
    assert_eq!(cmd.args, ["--dry-run", "-i", "/tmp/a.deb"]);
    assert!(cmd.elevated);
    assert!(manager.install(&requests(&["a@1"]), &plain()).is_err());
}

#[test]
fn gobo_drives_its_own_scripts() {
    let manager = gobo::factory()
        .create(Some("Compile".to_string()), Some("RemoveProgram".to_string()))
        .unwrap();
    let commands = manager.install(&requests(&["Bash"]), &yes()).unwrap();
    assert!(commands.iter().all(|cmd| cmd.program == "Compile" && !cmd.elevated));
    assert!(commands[0].args.contains(&"--batch".to_string()));
    let commands = manager.remove(&requests(&["Bash"]), &plain()).unwrap();
    assert!(commands.iter().all(|cmd| cmd.program == "RemoveProgram"));
}

#[test]
fn binstall_leaves_removal_to_cargo() {
    let manager = cargo_binstall::factory()
        .create(&found("cargo-binstall"))
        .unwrap();
    let cmd = only(manager.remove(
        &Some("cargo".to_string()),
        &requests(&["ripgrep"]),
        &plain(),
    ));
    assert_eq!(cmd.program, "cargo");
    assert_eq!(cmd.args, ["uninstall", "ripgrep"]);
    assert!(manager.remove(&None, &requests(&["ripgrep"]), &plain()).is_err());
    let cmd = only(manager.install(&requests(&["ripgrep@14.1.1"]), &yes()));
    assert!(cmd.args.contains(&"--no-confirm".to_string()));
    assert!(cmd.args.contains(&"ripgrep@14.1.1".to_string()));
}

#[test]
fn what_a_tool_cannot_do_is_refused() {
    let some = requests(&["a"]);
    assert!(refusal(bauh::factory().create().install(&some, &plain())).contains("GUI"));
    let manager = gradle::factory().create(&found("gradle")).unwrap();
    assert!(manager.install(&some, &plain()).is_err());
    let manager = leiningen::factory().create(&found("lein")).unwrap();
    assert_eq!(
        refusal(manager.remove(&requests(&["a", "b"]), &plain())),
        "leiningen: lein has no verb that removes a dependency; delete a, b from project.clj by hand"
    );
    let manager = fpm::factory().create(&found("fpm")).unwrap();
    assert!(manager.remove(&some, &plain()).is_err());
    let manager = deno::factory().create(&found("deno")).unwrap();
    assert!(manager.upgrade(&[], &plain()).is_err());
    assert!(ivy::factory().create().install(&some, &plain()).is_err());
    let manager = easybuild::factory().create(&found("eb")).unwrap();
    assert!(manager.remove(&some, &plain()).is_err());
    let manager = bundler::factory().create(&found("bundle")).unwrap();
    assert!(manager.install(&requests(&["rails@7"]), &plain()).is_err());
}

#[test]
fn lein_adds_and_then_fetches() {
    let manager = leiningen::factory().create(&found("lein")).unwrap();
    let commands = manager.install(&requests(&["clj-http"]), &plain()).unwrap();
    assert_eq!(commands.len(), 2);
    assert_eq!(
        commands[0].args,
        ["change", ":dependencies", "conj", "[clj-http \"RELEASE\"]"]
    );
    assert_eq!(commands[1].args, ["deps"]);
}

#[test]
fn julia_hands_packages_to_a_script() {
    let manager = julia::factory().create(&found("julia")).unwrap();
    let cmd = only(manager.install(&requests(&["JSON@0.21.4"]), &plain()));
    assert_eq!(cmd.args.last().unwrap(), "JSON@0.21.4");
    assert!(manager.install(&requests(&["JSON"]), &dry()).is_err());
}

#[test]
fn aura_sorts_packages_by_their_source() {
    let manager = aura::factory().create(&found("aura")).unwrap();
    let packages = requests(&["ripgrep", "paru"]);
    let mut replies: Vec<Reply> = Vec::new();
    for name in ["ripgrep", "paru"] {
        match manager.install(&packages, &yes(), &replies) {
            Step::Act(Action::Query(cmd)) => assert_eq!(cmd.args, ["-Si", name]),
            other => panic!("{other:?}"),
        }
        replies.push(Reply {
            success: name == "ripgrep",
            ..Default::default()
        });
    }
    match manager.install(&packages, &yes(), &replies) {
        Step::Act(Action::Run(cmd)) => {
            assert_eq!(cmd.args, ["-S", "--needed", "--noconfirm", "ripgrep"]);
            assert!(!cmd.elevated);
        }
        other => panic!("{other:?}"),
    }
    replies.push(Reply {
        success: true,
        ..Default::default()
    });
    match manager.install(&packages, &yes(), &replies) {
        Step::Act(Action::Run(cmd)) => assert_eq!(cmd.args, ["-A", "--noconfirm", "paru"]),
        other => panic!("{other:?}"),
    }
    match manager.install(&packages, &dry(), &[]) {
        Step::Fail(Error::Other(message)) => assert!(message.contains("dry-run")),
        other => panic!("{other:?}"),
    }
}

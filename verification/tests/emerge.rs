use snowcone::backends::emerge::{parse_pretend, parse_search, parse_size, regex_escape, scan_vdb, spec, split_pv};
use snowcone::package::InstallState;
use snowcone::request::PackageRequest;

#[test]
fn splits_pf_into_name_and_version() {
    assert_eq!(
        split_pv("ripgrep-14.1.0"),
        ("ripgrep".to_string(), Some("14.1.0".to_string()))
    );
    assert_eq!(
        split_pv("portage-3.0.66.1-r1"),
        ("portage".to_string(), Some("3.0.66.1-r1".to_string()))
    );
    // Digit-leading name chunks stay in the name.
    assert_eq!(
        split_pv("font-adobe-100dpi-1.0.4"),
        ("font-adobe-100dpi".to_string(), Some("1.0.4".to_string()))
    );
    assert_eq!(split_pv("gtk+extra"), ("gtk+extra".to_string(), None));
}

#[test]
fn lib_parses_search_blocks() {
    let stdout = "\
[ Results for search key : ripgrep ]
Searching...

*  sys-apps/ripgrep
      Latest version available: 14.1.0
      Latest version installed: [ Not Installed ]
      Size of files: 2,352 KiB
      Homepage:      https://github.com/BurntSushi/ripgrep
      Description:   Search tool that combines the usability of ag with the raw speed of grep
      License:       Apache-2.0 MIT UoI-NCSA

*  sys-apps/the_silver_searcher
      Latest version available: 2.2.0-r2
      Latest version installed: 2.2.0-r2
      Size of files: 158 KiB
      Homepage:      https://geoff.greer.fm/ag/
      Description:   A code-searching tool similar to ack, but faster
      License:       Apache-2.0

[ Applications found : 2 ]
";
    let packages = parse_search(stdout);
    assert_eq!(packages.len(), 2);
    assert_eq!(packages[0].name, "sys-apps/ripgrep");
    assert_eq!(packages[0].version.as_deref(), Some("14.1.0"));
    assert_eq!(packages[0].state, InstallState::Available);
    assert_eq!(packages[0].download_size, Some(2352 * 1024));
    assert_eq!(
        packages[0].homepage.as_deref(),
        Some("https://github.com/BurntSushi/ripgrep")
    );
    assert_eq!(packages[1].state, InstallState::Installed);
    assert_eq!(packages[1].version.as_deref(), Some("2.2.0-r2"));
}

#[test]
fn search_marks_upgradable_installs() {
    let stdout = "\
*  sys-apps/ripgrep
      Latest version available: 14.1.0
      Latest version installed: 13.0.0
      Description:   Search tool
";
    let packages = parse_search(stdout);
    assert_eq!(packages.len(), 1);
    assert_eq!(packages[0].version.as_deref(), Some("13.0.0"));
    assert_eq!(packages[0].latest_version.as_deref(), Some("14.1.0"));
    assert_eq!(packages[0].state, InstallState::Upgradable);
}

#[test]
fn parses_pretend_upgrade_lines() {
    let stdout = "\
These are the packages that would be merged, in order:

Calculating dependencies... done!
[ebuild     U  ] sys-apps/portage-3.0.66.1 [3.0.65] USE=\"rsync-verify\"
[ebuild  N     ] dev-libs/libffi-3.4.6
[ebuild   R    ] sys-apps/sandbox-2.38
[blocks b      ] <sys-apps/openrc-0.54

Total: 3 packages (1 upgrade, 1 new, 1 reinstall)
";
    let packages = parse_pretend(stdout);
    assert_eq!(packages.len(), 1);
    assert_eq!(packages[0].name, "sys-apps/portage");
    assert_eq!(packages[0].version.as_deref(), Some("3.0.65"));
    assert_eq!(packages[0].latest_version.as_deref(), Some("3.0.66.1"));
    assert_eq!(packages[0].state, InstallState::Upgradable);
}

#[test]
fn parses_sizes() {
    assert_eq!(parse_size("2,352 KiB"), Some(2352 * 1024));
    assert_eq!(parse_size("158 KiB"), Some(158 * 1024));
    assert_eq!(parse_size("1 MiB"), Some(1024 * 1024));
    assert_eq!(parse_size("weird"), None);
}

#[test]
fn scans_the_vdb_tree() {
    let categories = vec!["sys-apps".to_string(), "app-shells".to_string()];
    let entries = vec![
        vec![
            "ripgrep-14.1.0".to_string(),
            "-MERGING-portage-3.0.66.1".to_string(),
        ],
        vec!["bash-5.2_p26-r6".to_string()],
    ];
    let packages = scan_vdb(&categories, &entries);
    assert_eq!(packages.len(), 2);
    assert_eq!(packages[0].name, "app-shells/bash");
    assert_eq!(packages[0].version.as_deref(), Some("5.2_p26-r6"));
    assert_eq!(packages[1].name, "sys-apps/ripgrep");
    assert_eq!(packages[1].state, InstallState::Installed);
}

#[test]
fn emerge_formats_version_pins() {
    assert_eq!(
        spec(&PackageRequest::parse("sys-apps/ripgrep@14.1.0")),
        "=sys-apps/ripgrep-14.1.0"
    );
    assert_eq!(spec(&PackageRequest::parse("ripgrep")), "ripgrep");
}

#[test]
fn escapes_regex_metacharacters() {
    assert_eq!(regex_escape("gtk+"), "gtk\\+");
    assert_eq!(regex_escape("sys-apps/ripgrep"), "sys-apps/ripgrep");
}

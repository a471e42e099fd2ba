use snowcone::backends::dnf::{parse_info, parse_installed, parse_search, parse_updates, spec};
use snowcone::package::InstallState;
use snowcone::request::PackageRequest;

#[test]
fn parses_repoquery_records() {
    let stdout = "\
bash\t5.2.26-3.fc40\tx86_64\tThe GNU Bourne Again shell

ripgrep\t14.1.0-1.fc40\tx86_64\tLine-oriented search tool
";
    let packages = parse_installed(stdout);
    assert_eq!(packages.len(), 2);
    assert_eq!(packages[1].name, "ripgrep");
    assert_eq!(packages[1].version.as_deref(), Some("14.1.0-1.fc40"));
    assert_eq!(packages[1].state, InstallState::Installed);
}

#[test]
fn parses_dnf4_search_output() {
    let stdout = "\
Last metadata expiration check: 0:23:15 ago on Sun Aug  9 10:12:00 2026.
========================== Name Exactly Matched: ripgrep ==========================
ripgrep.x86_64 : Line-oriented search tool using Rust's regex library
=========================== Summary Matched: search ===============================
fd-find.x86_64 : Simple, fast alternative to find
";
    let packages = parse_search(stdout);
    assert_eq!(packages.len(), 2);
    assert_eq!(packages[0].name, "ripgrep");
    assert_eq!(packages[0].architecture.as_deref(), Some("x86_64"));
    assert_eq!(
        packages[0].description.as_deref(),
        Some("Line-oriented search tool using Rust's regex library")
    );
    assert_eq!(packages[0].state, InstallState::Available);
}

#[test]
fn parses_dnf5_search_output() {
    let stdout = "\
Updating and loading repositories:
Repositories loaded.
Matched fields: name, summary
 ripgrep.x86_64: Line-oriented search tool using Rust's regex library
";
    let packages = parse_search(stdout);
    assert_eq!(packages.len(), 1);
    assert_eq!(packages[0].name, "ripgrep");
}

#[test]
fn parses_check_update_with_wrapped_names() {
    let stdout = "\
Last metadata expiration check: 0:11:22 ago on Sun Aug  9 10:12:00 2026.

ripgrep.x86_64                          14.1.0-2.fc40                    updates
container-selinux.noarch
                                        2:2.232.1-1.fc40                 updates
Obsoleting Packages
grub2-tools.x86_64                      1:2.06-123.fc40                  updates
";
    let packages = parse_updates(stdout);
    assert_eq!(packages.len(), 2);
    assert_eq!(packages[0].name, "ripgrep");
    assert_eq!(packages[0].latest_version.as_deref(), Some("14.1.0-2.fc40"));
    assert_eq!(packages[0].state, InstallState::Upgradable);
    assert_eq!(packages[1].name, "container-selinux");
    assert_eq!(
        packages[1].latest_version.as_deref(),
        Some("2:2.232.1-1.fc40")
    );
}

#[test]
fn parses_info_stanzas_with_states() {
    let stdout = "\
Last metadata expiration check: 0:01:02 ago on Sun Aug  9 10:12:00 2026.
Installed Packages
Name         : ripgrep
Version      : 14.1.0
Release      : 1.fc40
Architecture : x86_64
Size         : 4.2 M
Source       : ripgrep-14.1.0-1.fc40.src.rpm
Repository   : @System
From repo    : updates
Summary      : Line-oriented search tool using Rust's regex
             : library
URL          : https://github.com/BurntSushi/ripgrep
License      : MIT OR Unlicense
Description  : ripgrep is a line-oriented search tool.
Available Packages
Name         : ripgrep
Version      : 14.1.0
Release      : 2.fc40
Architecture : x86_64
Repository   : updates
Summary      : Line-oriented search tool using Rust's regex library
";
    let stanzas = parse_info(stdout);
    assert_eq!(stanzas.len(), 2);
    assert_eq!(stanzas[0].state, InstallState::Installed);
    assert_eq!(stanzas[0].version.as_deref(), Some("14.1.0-1.fc40"));
    assert_eq!(stanzas[0].origin.as_deref(), Some("updates"));
    assert_eq!(
        stanzas[0].description.as_deref(),
        Some("Line-oriented search tool using Rust's regex library")
    );
    assert_eq!(stanzas[1].state, InstallState::Available);
    assert_eq!(stanzas[1].version.as_deref(), Some("14.1.0-2.fc40"));
}

#[test]
fn parses_dnf5_info_headers() {
    let stdout = "\
Installed packages
Name           : ripgrep
Version        : 14.1.0
Release        : 1.fc40
Architecture   : x86_64
";
    let stanzas = parse_info(stdout);
    assert_eq!(stanzas.len(), 1);
    assert_eq!(stanzas[0].state, InstallState::Installed);
}

#[test]
fn dnf_formats_version_pins() {
    assert_eq!(
        spec(&PackageRequest::parse("ripgrep@14.1.0-1.fc40")),
        "ripgrep-14.1.0-1.fc40"
    );
    assert_eq!(spec(&PackageRequest::parse("ripgrep")), "ripgrep");
}

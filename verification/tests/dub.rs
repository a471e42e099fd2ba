use snowcone::backends::dub::{parse_list, parse_search, spec};
use snowcone::package::InstallState;
use snowcone::request::PackageRequest;

#[test]
fn parses_cache_list() {
    let stdout = "\
Packages present in the system and known to dub:
  dub 1.38.1: /home/nick/.dub/packages/dub/1.38.1/dub/
  vibe-d 0.9.5: /home/nick/.dub/packages/vibe-d/0.9.5/vibe-d/
  vibe-d 0.10.1: /home/nick/.dub/packages/vibe-d/0.10.1/vibe-d/
";
    let packages = parse_list(stdout);
    assert_eq!(packages.len(), 3);
    assert_eq!(packages[0].name, "dub");
    assert_eq!(packages[0].version.as_deref(), Some("1.38.1"));
    assert_eq!(packages[2].version.as_deref(), Some("0.10.1"));
    assert_eq!(packages[0].state, InstallState::Installed);
}

#[test]
fn dub_parses_search_entries() {
    let stdout = "\
==== Search results for \"vibe\" ====
  vibe-d (0.10.1): Event driven web and concurrency framework
  vibe-core (2.8.0) The I/O and concurrency core of vibe.d
";
    let packages = parse_search(stdout);
    assert_eq!(packages.len(), 2);
    assert_eq!(packages[0].name, "vibe-d");
    assert_eq!(packages[0].version.as_deref(), Some("0.10.1"));
    assert_eq!(
        packages[0].description.as_deref(),
        Some("Event driven web and concurrency framework")
    );
    assert_eq!(packages[1].name, "vibe-core");
    assert_eq!(
        packages[1].description.as_deref(),
        Some("The I/O and concurrency core of vibe.d")
    );
    assert_eq!(packages[1].state, InstallState::Available);
}

#[test]
fn search_skips_banner_lines() {
    let packages = parse_search("==== dub.org: 2 results for \"vibe\" ====\n");
    assert!(packages.is_empty());
}

#[test]
fn dub_formats_version_pins() {
    assert_eq!(
        spec(&PackageRequest::parse("vibe-d@0.10.1")),
        "vibe-d@0.10.1"
    );
    assert_eq!(spec(&PackageRequest::parse("vibe-d")), "vibe-d");
}

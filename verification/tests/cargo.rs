use snowcone::backends::cargo::{parse_install_list, parse_search, spec};
use snowcone::package::InstallState;
use snowcone::request::PackageRequest;

#[test]
fn parses_install_list() {
    let stdout = "\
cargo-edit v0.12.2:
    cargo-add
    cargo-rm
    cargo-upgrade
ripgrep v14.1.1:
    rg
sccache v0.8.1 (/home/nick/src/sccache):
    sccache
tealdeer v1.6.1 (https://github.com/dbrgn/tealdeer#4b2f6ba1):
    tldr
";
    let packages = parse_install_list(stdout);
    assert_eq!(packages.len(), 4);
    assert_eq!(packages[0].name, "cargo-edit");
    assert_eq!(packages[0].version.as_deref(), Some("0.12.2"));
    assert_eq!(packages[0].origin, None);
    assert_eq!(packages[0].state, InstallState::Installed);
    assert_eq!(
        packages[2].origin.as_deref(),
        Some("/home/nick/src/sccache")
    );
    assert_eq!(
        packages[3].origin.as_deref(),
        Some("https://github.com/dbrgn/tealdeer#4b2f6ba1")
    );
}

#[test]
fn cargo_parses_search_lines() {
    let stdout = "\
ripgrep = \"14.1.1\"        # ripgrep is a line-oriented search tool that recursively searches the current directory for a regex pattern.
grep-searcher = \"0.1.13\"    # Fast line oriented regex searching as a library.
quiet-crate = \"0.1.0\"
... and 1795 crates more (use --limit N to see more)
";
    let packages = parse_search(stdout);
    assert_eq!(packages.len(), 3);
    assert_eq!(packages[0].name, "ripgrep");
    assert_eq!(packages[0].version.as_deref(), Some("14.1.1"));
    assert!(
        packages[0]
            .description
            .as_deref()
            .is_some_and(|text| text.starts_with("ripgrep is a line-oriented"))
    );
    assert_eq!(packages[2].name, "quiet-crate");
    assert_eq!(packages[2].description, None);
    assert_eq!(packages[0].state, InstallState::Available);
}

#[test]
fn search_trailer_with_url_is_skipped() {
    // Old cargos put a search URL (containing `=`) in the trailer.
    let stdout =
        "... and 42 crates more (go to https://crates.io/search?q=serde to see more)\n";
    assert!(parse_search(stdout).is_empty());
}

#[test]
fn cargo_formats_version_pins() {
    assert_eq!(
        spec(&PackageRequest::parse("ripgrep@14.1.1")),
        "ripgrep@14.1.1"
    );
    assert_eq!(spec(&PackageRequest::parse("ripgrep")), "ripgrep");
}

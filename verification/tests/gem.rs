use snowcone::backends::gem::{install_args, parse_details, parse_gem_lines, parse_outdated, regex_escape};
use snowcone::package::InstallState;
use snowcone::request::PackageRequest;

#[test]
fn parses_local_list() {
    let stdout = "\n*** LOCAL GEMS ***\n\nbigdecimal (3.1.4)\nbundler (default: 2.4.19)\nnokogiri (1.16.2 x86_64-linux)\nrake (13.0.6, 12.3.3)\n";
    let packages = parse_gem_lines(stdout, InstallState::Installed);
    assert_eq!(packages.len(), 4);
    assert_eq!(packages[0].name, "bigdecimal");
    assert_eq!(packages[0].version.as_deref(), Some("3.1.4"));
    assert_eq!(packages[1].version.as_deref(), Some("2.4.19"));
    assert_eq!(packages[2].version.as_deref(), Some("1.16.2"));
    assert_eq!(packages[3].version.as_deref(), Some("13.0.6"));
    assert_eq!(packages[0].state, InstallState::Installed);
}

#[test]
fn parses_remote_search() {
    let stdout = "\n*** REMOTE GEMS ***\n\nrails (7.1.2)\nrails-api (0.4.1)\n";
    let packages = parse_gem_lines(stdout, InstallState::Available);
    assert_eq!(packages.len(), 2);
    assert_eq!(packages[0].name, "rails");
    assert_eq!(packages[0].state, InstallState::Available);
}

#[test]
fn gem_parses_outdated_lines() {
    let packages = parse_outdated("rack (2.2.8 < 3.0.9)\nrake (13.0.6 < 13.1.0)\n");
    assert_eq!(packages.len(), 2);
    assert_eq!(packages[0].name, "rack");
    assert_eq!(packages[0].version.as_deref(), Some("2.2.8"));
    assert_eq!(packages[0].latest_version.as_deref(), Some("3.0.9"));
    assert_eq!(packages[0].state, InstallState::Upgradable);
}

#[test]
fn parses_details() {
    let stdout = "\n*** LOCAL GEMS ***\n
rake (13.0.6)
    Authors: Hiroshi SHIBATA, Eric Hodel, Jim Weirich
    Homepage: https://github.com/ruby/rake
    License: MIT
    Installed at: /usr/lib/ruby/gems/3.0.0

    Rake is a Make-like program implemented in Ruby:
    tasks and dependencies are specified in standard Ruby syntax.

rake-compiler (1.2.5)
    Authors: Kouhei Sutou
    Homepage: https://github.com/rake-compiler/rake-compiler
    Licenses: MIT

    Provide a standard and simplified way to build and package native
    extensions.
";
    let packages = parse_details(stdout, InstallState::Installed);
    assert_eq!(packages.len(), 2);
    assert_eq!(packages[0].name, "rake");
    assert_eq!(packages[0].version.as_deref(), Some("13.0.6"));
    assert_eq!(
        packages[0].homepage.as_deref(),
        Some("https://github.com/ruby/rake")
    );
    assert_eq!(packages[0].license.as_deref(), Some("MIT"));
    assert_eq!(
        packages[0].description.as_deref(),
        Some(
            "Rake is a Make-like program implemented in Ruby: \
                 tasks and dependencies are specified in standard Ruby syntax."
        )
    );
    assert_eq!(packages[1].name, "rake-compiler");
    assert_eq!(packages[1].license.as_deref(), Some("MIT"));
}

#[test]
fn gem_formats_version_pins() {
    assert_eq!(
        install_args(&PackageRequest::parse("rails@7.1.2")),
        vec!["rails", "-v", "7.1.2"]
    );
    assert_eq!(install_args(&PackageRequest::parse("rails")), vec!["rails"]);
}

#[test]
fn lib_escapes_regex_metacharacters() {
    assert_eq!(regex_escape("net-http"), "net-http");
    assert_eq!(regex_escape("rexml.rb"), "rexml\\.rb");
}

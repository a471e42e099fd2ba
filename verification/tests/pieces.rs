use snowcone::backends::{
    apk, aptitude, bundler, cabal, composer, dotnet, dpkg, eepm, gem, leiningen,
};

fn owned(text: &str) -> Option<String> {
    Some(text.to_string())
}

fn pair(name: &str, version: &str) -> Option<(String, String)> {
    Some((name.to_string(), version.to_string()))
}

#[test]
fn text_between_brackets() {
    assert_eq!(apk::between("curl {curl} (MIT) [installed]", '{', '}'), owned("curl"));
    assert_eq!(apk::between("curl (MIT AND (BSD)) x", '(', ')'), owned("MIT AND (BSD)"));
    assert_eq!(apk::between("()", '(', ')'), owned(""));
    assert_eq!(apk::between(")(", '(', ')'), None);
    assert_eq!(apk::between("no brackets", '(', ')'), None);
}

#[test]
fn none_is_no_version() {
    assert_eq!(aptitude::optional_version("<none>"), None);
    assert_eq!(aptitude::optional_version("1.2-3"), owned("1.2-3"));
}

#[test]
fn bullets_name_a_gem() {
    assert_eq!(bundler::parse_entry("* rack (3.0.8 abc123)"), pair("rack", "3.0.8"));
    assert_eq!(bundler::parse_entry("  * rack (3.0.8)"), None);
    assert_eq!(bundler::parse_entry("* rack ()"), None);
}

#[test]
fn last_of_a_version_list() {
    assert_eq!(cabal::last_version("1.0, 1.1, 2.0 (and 3 others)"), owned("2.0"));
    assert_eq!(cabal::last_version("1.0, ,"), owned("1.0"));
    assert_eq!(cabal::last_version("(none)"), None);
}

#[test]
fn platform_packages_are_dependencies() {
    for name in ["symfony/console", "php", "php-64bit", "ext-json", "lib-icu", "composer-runtime"] {
        assert!(composer::is_dependency_name(name), "{name}");
    }
    for name in ["requires", "phpunit", "extra"] {
        assert!(!composer::is_dependency_name(name), "{name}");
    }
}

#[test]
fn rules_are_made_of_dashes() {
    assert!(dotnet::is_separator("  ---- "));
    assert!(!dotnet::is_separator(""));
    assert!(!dotnet::is_separator("-- --"));
}

#[test]
fn status_ends_in_installed() {
    assert!(dpkg::status_installed("install ok installed"));
    assert!(!dpkg::status_installed("deinstall ok config-files"));
    assert!(!dpkg::status_installed("install ok not-installed"));
    assert!(!dpkg::status_installed(""));
}

#[test]
fn echoes_are_noise() {
    for line in ["", " continued", "\tcontinued", "$ rpm -qa", "# rpm -qa"] {
        assert!(eepm::is_noise(line), "{line}");
    }
    assert!(!eepm::is_noise("bash-5.2-alt1"));
}

#[test]
fn headers_name_the_newest_version() {
    assert_eq!(gem::parse_header("json (default: 2.7.1, 2.6.3)"), pair("json", "2.7.1"));
    assert_eq!(gem::parse_header("nokogiri (1.16.0 x86_64-linux)"), pair("nokogiri", "1.16.0"));
    assert_eq!(gem::parse_header("*** LOCAL GEMS ***"), None);
    assert_eq!(gem::parse_header("two words (1.0)"), None);
    assert_eq!(gem::parse_header("rack ()"), None);
}

#[test]
fn coordinates_quote_the_version() {
    assert_eq!(
        leiningen::parse_coordinates("ring/ring-core \"1.9.0\" :exclusions [x]"),
        Some(("ring/ring-core".to_string(), owned("1.9.0"))),
    );
    assert_eq!(leiningen::parse_coordinates("ring"), Some(("ring".to_string(), None)));
    assert_eq!(leiningen::parse_coordinates("  "), None);
}

use snowcone::backends::go::{binary_name, parse_version_m, spec};
use snowcone::package::InstallState;
use snowcone::request::PackageRequest;

#[test]
fn parses_version_m_output() {
    let stdout = "\
/home/nick/go/bin/fzf: go1.22.1
\tpath\tgithub.com/junegunn/fzf
\tmod\tgithub.com/junegunn/fzf\tv0.46.1\th1:aaa=
\tdep\tgithub.com/rivo/uniseg\tv0.4.7\th1:bbb=
/home/nick/go/bin/gopls: go1.22.1
\tpath\tgolang.org/x/tools/gopls
\tmod\tgolang.org/x/tools/gopls\tv0.15.3\th1:ccc=
";
    let packages = parse_version_m(stdout);
    assert_eq!(packages.len(), 2);
    assert_eq!(packages[0].name, "github.com/junegunn/fzf");
    assert_eq!(packages[0].version.as_deref(), Some("v0.46.1"));
    assert_eq!(packages[1].name, "golang.org/x/tools/gopls");
    assert_eq!(packages[1].state, InstallState::Installed);
}

#[test]
fn skips_binaries_without_module_info() {
    let stdout = "/home/nick/go/bin/rustup: could not read Go build info\n";
    assert!(parse_version_m(stdout).is_empty());
}

#[test]
fn formats_install_specs() {
    assert_eq!(
        spec(&PackageRequest::parse("github.com/junegunn/fzf@0.46.1")),
        "github.com/junegunn/fzf@v0.46.1"
    );
    assert_eq!(
        spec(&PackageRequest::parse("github.com/junegunn/fzf@latest")),
        "github.com/junegunn/fzf@latest"
    );
    assert_eq!(
        spec(&PackageRequest::parse("github.com/junegunn/fzf")),
        "github.com/junegunn/fzf@latest"
    );
}

#[test]
fn binary_names_skip_major_version_suffixes() {
    assert_eq!(binary_name("github.com/foo/bar"), "bar");
    assert_eq!(binary_name("github.com/foo/bar/v2"), "bar");
    assert_eq!(binary_name("fzf"), "fzf");
}

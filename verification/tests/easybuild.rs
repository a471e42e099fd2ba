use snowcone::backends::easybuild::{easyconfig, parse_installed, parse_search, reject_pins, split_easyconfig};
use snowcone::package::InstallState;
use snowcone::request::PackageRequest;

#[test]
fn parses_search_hits() {
    let stdout = "\
== found valid index for /home/nick/.local/easybuild/easyconfigs, so using it...
 * /home/nick/.local/easybuild/easyconfigs/z/zlib/zlib-1.2.13.eb
 * /home/nick/.local/easybuild/easyconfigs/z/zlib/zlib-1.3.1-GCCcore-13.3.0.eb
";
    let packages = parse_search(stdout);
    assert_eq!(packages.len(), 2);
    assert_eq!(packages[0].name, "zlib");
    assert_eq!(packages[0].version.as_deref(), Some("1.2.13"));
    assert_eq!(packages[1].version.as_deref(), Some("1.3.1-GCCcore-13.3.0"));
    assert_eq!(packages[0].state, InstallState::Available);
}

#[test]
fn parses_search_hits_with_cfgs_prefix() {
    let stdout = "\
== found valid index for /opt/easybuild/easyconfigs, so using it...
CFGS1=/opt/easybuild/easyconfigs
 * $CFGS1/b/Bison/Bison-3.8.2.eb
 * $CFGS1/b/Bison/Bison-3.8.2-GCCcore-13.2.0.eb
";
    let packages = parse_search(stdout);
    assert_eq!(packages.len(), 2);
    assert_eq!(packages[0].name, "Bison");
    assert_eq!(packages[0].version.as_deref(), Some("3.8.2"));
    assert_eq!(packages[1].version.as_deref(), Some("3.8.2-GCCcore-13.2.0"));
}

#[test]
fn splits_easyconfig_names() {
    assert_eq!(
        split_easyconfig("GCC-13.2.0"),
        ("GCC".to_string(), Some("13.2.0".to_string()))
    );
    assert_eq!(
        split_easyconfig("netCDF-Fortran-4.6.1-gompi-2023b"),
        (
            "netCDF-Fortran".to_string(),
            Some("4.6.1-gompi-2023b".to_string())
        )
    );
    assert_eq!(
        split_easyconfig("EasyBuild"),
        ("EasyBuild".to_string(), None)
    );
}

#[test]
fn parses_installed_software() {
    let stdout = "\
== found valid index for /opt/easybuild/easyconfigs, so using it...
* EasyBuild
* GCC
* zlib
";
    let packages = parse_installed(stdout);
    assert_eq!(packages.len(), 3);
    assert_eq!(packages[1].name, "GCC");
    assert_eq!(packages[1].version, None);
    assert_eq!(packages[1].state, InstallState::Installed);
}

#[test]
fn formats_easyconfig_specs() {
    assert_eq!(easyconfig("zlib-1.2.13"), "zlib-1.2.13.eb");
    assert_eq!(easyconfig("zlib-1.2.13.eb"), "zlib-1.2.13.eb");
}

#[test]
fn easybuild_rejects_version_pins() {
    assert!(reject_pins(&[PackageRequest::parse("zlib@1.2.13")]).is_err());
    assert!(reject_pins(&[PackageRequest::parse("zlib-1.2.13")]).is_ok());
}

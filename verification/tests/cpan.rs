use snowcone::backends::cpan::{CpanPackage, parse_details, parse_installed, parse_namespaces, parse_outdated, reject_pins};
use snowcone::package::InstallState;
use snowcone::request::PackageRequest;

#[test]
fn parses_inventory() {
    let p = parse_installed("DBI\t1.647\nJSON::PP\t4.16\n");
    assert_eq!(p[1].name, "JSON::PP");
}
#[test]
fn filters_namespace_dump() {
    let p = parse_namespaces("DBI 1.647\nJSON::PP 4.16\nnoise line\n");
    assert_eq!(p.len(), 2);
}
#[test]
fn rejects_pins() {
    assert!(reject_pins(&[PackageRequest::parse("DBI@1.647")]).is_err());
}
#[test]
fn parses_installed_details() {
    let out = "Loading internal logger. Log::Log4perl recommended for better logging\nReading '/home/nick/.cpan/Metadata'\n  Database was generated on Mon, 21 Jul 2025 09:41:03 GMT\nText::Autoformat\n-------------------------------------------------------------------------\n\tAutomatic text wrapping and reformatting\n\tN/NE/NEILB/Text-Autoformat-1.75.tar.gz\n\t/usr/lib/perl5/site_perl/Text/Autoformat.pm\n\tInstalled: 1.74\n\tCPAN:      1.75  Not up to date\n\tNeil Bowers (NEILB)\n\tneil@bowers.uk\n\n";
    let p = parse_details(out, "Text::Autoformat", None).unwrap();
    assert_eq!(p.name, "Text::Autoformat");
    assert_eq!(p.version.as_deref(), Some("1.74"));
    assert_eq!(p.latest_version.as_deref(), Some("1.75"));
    assert_eq!(
        p.description.as_deref(),
        Some("Automatic text wrapping and reformatting")
    );
    assert_eq!(p.state, InstallState::Upgradable);
}
#[test]
fn parses_uninstalled_details() {
    let out = "Bundle::CPAN\n-------------------------------------------------------------------------\n\t(no description)\n\tA/AN/ANDK/Bundle-CPAN-1.861.tar.gz\n\t(no installation file)\n\tInstalled: not installed\n\tCPAN:      1.861  Not up to date\n\tAndreas J. Koenig (ANDK)\n\tandk@cpan.org\n\n";
    let p = parse_details(out, "Bundle::CPAN", None).unwrap();
    assert_eq!(p.version.as_deref(), Some("1.861"));
    assert_eq!(p.latest_version, None);
    assert_eq!(p.description, None);
    assert_eq!(p.state, InstallState::Available);
}
#[test]
fn details_keep_inventory_version() {
    let out = "JSON::PP\n-------------------------------------------------------------------------\n\t(no description)\n\tI/IS/ISHIGAKI/JSON-PP-4.16.tar.gz\n\t/usr/lib/perl5/core_perl/JSON/PP.pm\n\tInstalled: 4.16\n\tCPAN:      4.16  up to date\n\tKenichi Ishigaki (ISHIGAKI)\n\tishigaki@cpan.org\n\n";
    let inventory = CpanPackage {
        name: "JSON::PP".into(),
        version: Some("4.16".into()),
        latest_version: None,
        description: None,
        state: InstallState::Installed,
    };
    let p = parse_details(out, "JSON::PP", Some(inventory)).unwrap();
    assert_eq!(p.version.as_deref(), Some("4.16"));
    assert_eq!(p.latest_version, None);
    assert_eq!(p.state, InstallState::Installed);
}
#[test]
fn unknown_module_details_parse_to_none() {
    let out = "Loading internal logger. Log::Log4perl recommended for better logging\nReading '/home/nick/.cpan/Metadata'\n  Database was generated on Mon, 21 Jul 2025 09:41:03 GMT\n";
    assert!(parse_details(out, "No::Such::Module", None).is_none());
}
#[test]
fn parses_outdated_listing() {
    let out = "Module Name                                 Local    CPAN\n-------------------------------------------------------------------------\nText::Autoformat                          1.7400  1.7500\nJSON::PP                                  4.1600  4.1700\n";
    let p = parse_outdated(out);
    assert_eq!(p.len(), 2);
    assert_eq!(p[0].name, "Text::Autoformat");
    assert_eq!(p[0].version.as_deref(), Some("1.7400"));
    assert_eq!(p[0].latest_version.as_deref(), Some("1.7500"));
    assert_eq!(p[0].state, InstallState::Upgradable);
}

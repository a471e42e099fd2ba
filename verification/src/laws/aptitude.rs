//! What `aptitude` says.

use vstd::prelude::*;

use crate::backends::aptitude;
use crate::form;
use crate::package::{self, InstallState, PackageView};
use crate::text::Text;

verus! {

/// A row of name, version and description is an installed package.
pub proof fn installed_rows_are_read(
    line: Seq<char>,
    more: Seq<char>,
    name: Seq<char>,
    version: Seq<char>,
    description: Seq<char>,
)
    requires
        form::is_line(line),
        line.split_some(3, " "@) == seq![name, version, description],
        description.trim().len() > 0,
        name.len() > 0,
    ensures
        aptitude::parse_installed_spec(form::above(line, more)) == seq![
            PackageView {
                name,
                version: if version == "<none>"@ { None } else { Some(version) },
                description: Some(description.trim()),
                state: InstallState::Installed,
                ..PackageView::blank()
            },
        ] + aptitude::parse_installed_spec(more),
        aptitude::parse_installed_spec(""@) == Seq::<PackageView>::empty(),
{
    reveal_strlit("<none>");
    assert("<none>"@.len() == 6);
    form::a_row_is_read(line, more, |line: Seq<char>| aptitude::installed_row_spec(line));
    form::nothing_is_read();
}

/// A row of mark, name, version and description is a package, installed where
/// the mark says so.
pub proof fn search_rows_are_read(
    line: Seq<char>,
    more: Seq<char>,
    mark: Seq<char>,
    name: Seq<char>,
    version: Seq<char>,
    description: Seq<char>,
)
    requires
        form::is_line(line),
        line.split_some(4, " "@) == seq![mark, name, version, description],
        description.trim().len() > 0,
        name.len() > 0,
    ensures
        aptitude::parse_search_spec(form::above(line, more)) == seq![
            PackageView {
                name,
                version: if version == "<none>"@ { None } else { Some(version) },
                description: Some(description.trim()),
                state: if mark == "i"@ {
                    InstallState::Installed
                } else { InstallState::Available },
                ..PackageView::blank()
            },
        ] + aptitude::parse_search_spec(more),
        aptitude::parse_search_spec(""@) == Seq::<PackageView>::empty(),
{
    reveal_strlit("<none>");
    assert("<none>"@.len() == 6);
    form::a_row_is_read(line, more, |line: Seq<char>| aptitude::search_row_spec(line));
    form::nothing_is_read();
}

/// A row of name, installed version, offered version and description is a
/// package that can be upgraded from the one to the other.
pub proof fn outdated_rows_give_both_versions(
    line: Seq<char>,
    more: Seq<char>,
    name: Seq<char>,
    old_version: Seq<char>,
    new_version: Seq<char>,
    description: Seq<char>,
)
    requires
        form::is_line(line),
        line.split_some(4, " "@) == seq![name, old_version, new_version, description],
        description.trim().len() > 0,
        name.len() > 0,
    ensures
        aptitude::parse_outdated_spec(form::above(line, more)) == seq![
            PackageView {
                name,
                version: if old_version == "<none>"@ { None } else { Some(old_version) },
                latest_version: if new_version == "<none>"@ { None } else { Some(new_version) },
                description: Some(description.trim()),
                state: InstallState::Upgradable,
                ..PackageView::blank()
            },
        ] + aptitude::parse_outdated_spec(more),
        aptitude::parse_outdated_spec(""@) == Seq::<PackageView>::empty(),
{
    reveal_strlit("<none>");
    assert("<none>"@.len() == 6);
    form::a_row_is_read(line, more, |line: Seq<char>| aptitude::outdated_row_spec(line));
    form::nothing_is_read();
}

/// Each field of a description goes where it belongs.
pub proof fn fields_go_where_they_belong(package: PackageView, value: Seq<char>)
    ensures
        aptitude::keyed_spec(package, "Package"@, value) == (
            PackageView { name: value, ..package }
        ),
        aptitude::keyed_spec(package, "Version"@, value) == (
            PackageView { version: Some(value), ..package }
        ),
        aptitude::keyed_spec(package, "Architecture"@, value) == (
            PackageView { architecture: Some(value), ..package }
        ),
        aptitude::keyed_spec(package, "Section"@, value) == (
            PackageView { origin: Some(value), ..package }
        ),
        aptitude::keyed_spec(package, "Homepage"@, value) == (
            PackageView { homepage: Some(value), ..package }
        ),
        aptitude::keyed_spec(package, "Depends"@, value) == (
            PackageView { dependencies: Some(package::dependency_names(value)), ..package }
        ),
        aptitude::keyed_spec(package, "Description"@, value) == (
            PackageView { description: Some(value), ..package }
        ),
        aptitude::keyed_spec(package, "State"@, value) == (
            PackageView {
                state: if value == "installed"@ {
                    InstallState::Installed
                } else { InstallState::Available },
                ..package
            }
        ),
{
    reveal_strlit("Package");
    reveal_strlit("Version");
    reveal_strlit("Architecture");
    reveal_strlit("Section");
    reveal_strlit("Homepage");
    reveal_strlit("Depends");
    reveal_strlit("Description");
    reveal_strlit("State");
    assert("Package"@.len() == 7);
    assert("Version"@.len() == 7);
    assert("Architecture"@.len() == 12);
    assert("Section"@.len() == 7);
    assert("Homepage"@.len() == 8);
    assert("Depends"@.len() == 7);
    assert("Description"@.len() == 11);
    assert("State"@.len() == 5);
    assert("Package"@[0] == 'P');
    assert("Version"@[0] == 'V');
    assert("Section"@[0] == 'S');
    assert("Depends"@[0] == 'D');
}

/// A field on a line of its own is taken in; a line that is indented is not a field.
pub proof fn fields_are_taken_in(
    state: aptitude::ShowScanView,
    line: Seq<char>,
    key: Seq<char>,
    value: Seq<char>,
)
    requires
        line.cut(":"@) matches Some((k, v)) && k.trim() == key && v.trim() == value,
    ensures
        value.len() > 0 && !line.begins_blank() ==> aptitude::show_next_spec(state, line).package
            == aptitude::keyed_spec(state.package, key, value),
        value.len() == 0 || line.begins_blank()
            ==> aptitude::show_next_spec(state, line) == state,
{
}

/// A description with a name is a package; one without is none.
pub proof fn descriptions_are_named(name: Seq<char>, version: Seq<char>)
    requires
        form::is_phrase(name),
        form::is_phrase(version),
    ensures
        aptitude::parse_show_spec(
            form::above(
                form::field("Package"@, name),
                form::above(form::field("Version"@, version), ""@),
            ),
        ) == Some(PackageView { name, version: Some(version), ..PackageView::blank() }),
        aptitude::parse_show_spec(""@) is None,
{
    reveal_strlit("Package");
    reveal_strlit("Version");
    assert("Package"@.len() == 7);
    assert("Version"@.len() == 7);
    assert("Package"@[0] == 'P');
    assert("Version"@[0] == 'V');
    form::a_field_is_cut("Package"@, name);
    form::a_field_is_cut("Version"@, version);
    let start = aptitude::ShowScanView::start();
    let f = |state: aptitude::ShowScanView, line: Seq<char>| aptitude::show_next_spec(state, line);
    let first = form::field("Package"@, name);
    let second = form::field("Version"@, version);
    form::a_line_is_scanned(start, first, form::above(second, ""@), f);
    form::a_line_is_scanned(f(start, first), second, ""@, f);
    form::nothing_is_read();
}

/// An output of a single line is what that line says, and an empty one says
/// nothing.
pub proof fn single_lines_are_read(line: Seq<char>)
    requires
        form::is_line(line),
    ensures
        ({
            let start = aptitude::ShowScanView { package: PackageView::blank() };
            let end = aptitude::show_next_spec(start, line);
            aptitude::parse_show_spec(
                form::above(line, ""@),
            ) == if end.package.name.len() == 0 { None } else { Some(end.package) }
        }),
        ({
            let end = aptitude::ShowScanView { package: PackageView::blank() };
            aptitude::parse_show_spec(""@) == if end.package.name.len() == 0 { None } else {
                Some(end.package)
            }
        }),
{
    let start = aptitude::ShowScanView { package: PackageView::blank() };
    form::a_line_is_scanned(
        start,
        line,
        ""@,
        |state: aptitude::ShowScanView, line: Seq<char>| aptitude::show_next_spec(state, line),
    );
    form::nothing_is_read();
}

/// A row with too few columns is no package.
pub proof fn short_rows_say_nothing(line: Seq<char>)
    ensures
        line.split_some(3, " "@).len() < 2 ==> aptitude::installed_row_spec(line) is None,
        line.split_some(4, " "@).len() < 3
            ==> aptitude::search_row_spec(line) is None
                && aptitude::outdated_row_spec(line) is None,
{

}

/// A row without a description has none.
pub proof fn descriptions_may_be_missing(
    line: Seq<char>,
    mark: Seq<char>,
    name: Seq<char>,
    version: Seq<char>,
    other: Seq<char>,
)
    requires
        name.len() > 0,
        version != "<none>"@ && other != "<none>"@,
    ensures
        line.split_some(3, " "@) == seq![name, version]
            ==> aptitude::installed_row_spec(line) == Some(
                PackageView {
                    name,
                    version: Some(version),
                    state: InstallState::Installed,
                    ..PackageView::blank()
                },
            ),
        line.split_some(4, " "@) == seq![mark, name, version] && mark != "i"@
            ==> aptitude::search_row_spec(line) == Some(
                PackageView {
                    name,
                    version: Some(version),
                    state: InstallState::Available,
                    ..PackageView::blank()
                },
            ),
        line.split_some(4, " "@) == seq![name, version, other]
            ==> aptitude::outdated_row_spec(line) == Some(
                PackageView {
                    name,
                    version: Some(version),
                    latest_version: Some(other),
                    state: InstallState::Upgradable,
                    ..PackageView::blank()
                },
            ),
{

}

} // verus!

//! What `apx` says.

use vstd::prelude::*;

use crate::backends::apx;
use crate::command::CmdView;
use crate::error::ErrorView;
use crate::form;
use crate::package::{self, InstallState, PackageView};
use crate::session::{self, ReplyView, StepView};
use crate::text::{self, Text};

verus! {

/// A row `name/origin version architecture` is a package to be had; marked as
/// installed it is installed; and where it says what it is upgradable from,
/// that is the installed version and the listed one is the latest.
pub proof fn listed_rows_are_read(
    line: Seq<char>,
    more: Seq<char>,
    name: Seq<char>,
    rest: Seq<char>,
    before: Seq<char>,
    from: Seq<char>,
)
    requires
        form::is_line(line),
        text::is_word(name),
        line.cut("/"@) == Some((name, rest)),
        rest.words().len() > 2,
    ensures
        ({
            let rows = apx::parse_list_spec(form::above(line, more));
            &&& rows.len() == 1 + apx::parse_list_spec(more).len()
            &&& rows.skip(1) == apx::parse_list_spec(more)
            &&& rows[0].name == name
            &&& rows[0].origin == Some(rest.words()[0])
            &&& rows[0].architecture == Some(rest.words()[2])
            &&& rows[0].description is None && rows[0].homepage is None
            &&& line.cut("[upgradable from: "@) == Some((before, from)) ==> rows[0].version == Some(
                from.trim_back("]"@),
            ) && rows[0].latest_version == Some(rest.words()[1]) && rows[0].state
                == InstallState::Upgradable
            &&& line.cut("[upgradable from: "@) is None ==> rows[0].version == Some(
                rest.words()[1],
            ) && rows[0].latest_version is None && rows[0].state == if line.has("[installed"@) {
                InstallState::Installed
            } else {
                InstallState::Available
            }
        }),
{
    form::a_word_is_a_phrase(name);
    form::a_row_is_read(line, more, |line: Seq<char>| apx::list_row_spec(line));
    let rows = apx::parse_list_spec(form::above(line, more));
    assert(rows.skip(1) =~= apx::parse_list_spec(more));
}

/// An indented line describes the result above it, once.
pub proof fn results_are_described(
    state: apx::SearchScanView,
    line: Seq<char>,
    description: Seq<char>,
    package: PackageView,
)
    requires
        line.trim() == description,
        description.len() > 0,
    ensures
        !line.begins_blank() && apx::list_row_spec(line) == Some(package) ==> apx::search_next_spec(
            state,
            line,
        ).packages == state.packages.push(package),
        line.begins_blank() && state.packages.len() == 0 ==> apx::search_next_spec(
            state,
            line,
        ).packages.len() == 0,
        line.begins_blank() && state.packages.len() > 0 ==> ({
            let next = apx::search_next_spec(state, line).packages;
            let last = state.packages.last();
            &&& next.len() == state.packages.len()
            &&& next.drop_last() == state.packages.drop_last()
            &&& last.description is None ==> next.last() == (PackageView {
                description: Some(description),
                ..last
            })
            &&& last.description is Some ==> next.last() == last
        }),
{
    if line.begins_blank() && state.packages.len() > 0 {
        let next = apx::search_next_spec(state, line).packages;
        assert(next.drop_last() =~= state.packages.drop_last());
    }
}

/// Each field of a description goes where it belongs.
pub proof fn fields_go_where_they_belong(package: PackageView, value: Seq<char>)
    ensures
        apx::keyed_spec(package, "Package"@, value) == (PackageView { name: value, ..package }),
        apx::keyed_spec(package, "Version"@, value) == (
            PackageView { version: Some(value), ..package }
        ),
        apx::keyed_spec(package, "Architecture"@, value) == (
            PackageView { architecture: Some(value), ..package }
        ),
        apx::keyed_spec(package, "Section"@, value) == (
            PackageView { origin: Some(value), ..package }
        ),
        apx::keyed_spec(package, "Homepage"@, value) == (
            PackageView { homepage: Some(value), ..package }
        ),
        apx::keyed_spec(package, "Depends"@, value) == (
            PackageView { dependencies: Some(package::dependency_names(value)), ..package }
        ),
        apx::keyed_spec(package, "Description"@, value) == (
            PackageView { description: Some(value), ..package }
        ),
        apx::keyed_spec(package, "Description-en"@, value) == (
            PackageView { description: Some(value), ..package }
        ),
{
    reveal_strlit("Package");
    reveal_strlit("Version");
    reveal_strlit("Architecture");
    reveal_strlit("Section");
    reveal_strlit("Homepage");
    reveal_strlit("Depends");
    reveal_strlit("Description");
    reveal_strlit("Description-en");
    assert("Package"@.len() == 7);
    assert("Version"@.len() == 7);
    assert("Architecture"@.len() == 12);
    assert("Section"@.len() == 7);
    assert("Homepage"@.len() == 8);
    assert("Depends"@.len() == 7);
    assert("Description"@.len() == 11);
    assert("Description-en"@.len() == 14);
    assert("Package"@[0] == 'P');
    assert("Version"@[0] == 'V');
    assert("Section"@[0] == 'S');
    assert("Depends"@[0] == 'D');
}

/// A field on a line of its own is taken in; a line that is indented is not a field.
pub proof fn fields_are_taken_in(
    state: apx::ShowScanView,
    line: Seq<char>,
    key: Seq<char>,
    value: Seq<char>,
)
    requires
        line.cut(":"@) matches Some((k, v)) && k.trim() == key && v.trim() == value,
    ensures
        value.len() > 0 && !line.begins_blank() ==> apx::show_next_spec(state, line).package
            == apx::keyed_spec(state.package, key, value),
        value.len() == 0 || line.begins_blank() ==> apx::show_next_spec(state, line) == state,
{
}

/// What is listed as installed gives its version and state to the description,
/// and where it can be upgraded also the latest version.
pub proof fn listed_packages_are_merged(package: PackageView, listed: PackageView)
    ensures
        apx::merge_spec(package, None) == package,
        listed.state == InstallState::Installed ==> apx::merge_spec(package, Some(listed)) == (
        PackageView { version: listed.version, state: InstallState::Installed, ..package }),
        listed.state == InstallState::Upgradable ==> apx::merge_spec(package, Some(listed)) == (
        PackageView {
            version: listed.version,
            latest_version: listed.latest_version,
            state: InstallState::Upgradable,
            ..package
        }),
        listed.state == InstallState::Available ==> apx::merge_spec(package, Some(listed))
            == package,
{
}

/// A package is described, then looked for among those that are listed.
pub proof fn descriptions_are_merged(
    manager: apx::Manager,
    name: Seq<char>,
    package: PackageView,
    replies: Seq<ReplyView>,
)
    ensures
        replies.len() == 0 ==> manager.info_spec(name, replies) == session::ask::<PackageView>(
            CmdView::query(manager.program@).arg("show"@).arg(name),
        ),
        replies.len() > 0 && (!replies[0].success || replies[0].stdout.trim().len() == 0)
            ==> manager.info_spec(name, replies) == StepView::<PackageView>::Fail(
            ErrorView::NotFound(name),
        ),
        replies.len() > 0 && replies[0].success && replies[0].stdout.trim().len() > 0
            && apx::parse_show_spec(replies[0].stdout) == Some(package) ==> manager.info_spec(
            name,
            replies,
        ) == if replies.len() == 1 {
            session::ask(CmdView::query(manager.program@).arg("list"@))
        } else {
            StepView::Done(
                apx::merge_spec(
                    package,
                    session::called(apx::parse_list_spec(replies[1].stdout), package.name),
                ),
            )
        },
{
}

/// A description with a name is a package; one without is none.
pub proof fn descriptions_are_named(name: Seq<char>, version: Seq<char>)
    requires
        form::is_phrase(name),
        form::is_phrase(version),
    ensures
        apx::parse_show_spec(
            form::above(
                form::field("Package"@, name),
                form::above(form::field("Version"@, version), ""@),
            ),
        ) == Some(
            PackageView {
                name,
                version: Some(version),
                state: InstallState::Available,
                ..PackageView::blank()
            },
        ),
        apx::parse_show_spec(""@) is None,
{
    reveal_strlit("Package");
    reveal_strlit("Version");
    assert("Package"@.len() == 7);
    assert("Version"@.len() == 7);
    assert("Package"@[0] == 'P');
    assert("Version"@[0] == 'V');
    form::a_field_is_cut("Package"@, name);
    form::a_field_is_cut("Version"@, version);
    let start = apx::ShowScanView::start();
    let f = |state: apx::ShowScanView, line: Seq<char>| apx::show_next_spec(state, line);
    let first = form::field("Package"@, name);
    let second = form::field("Version"@, version);
    form::a_line_is_scanned(start, first, form::above(second, ""@), f);
    form::a_line_is_scanned(f(start, first), second, ""@, f);
    form::nothing_is_read();
}

/// An output of a single line is what that line says, and an empty one says
/// nothing.
pub proof fn single_lines_are_read(line: Seq<char>)
    requires
        form::is_line(line),
    ensures
        ({
            let start = apx::ShowScanView {
                package: PackageView { state: InstallState::Available, ..PackageView::blank() },
            };
            let end = apx::show_next_spec(start, line);
            apx::parse_show_spec(
                form::above(line, ""@),
            ) == if end.package.name.len() == 0 { None } else { Some(end.package) }
        }),
        ({
            let end = apx::ShowScanView {
                package: PackageView { state: InstallState::Available, ..PackageView::blank() },
            };
            apx::parse_show_spec(""@) == if end.package.name.len() == 0 { None } else {
                Some(end.package)
            }
        }),
{
    let start = apx::ShowScanView {
        package: PackageView { state: InstallState::Available, ..PackageView::blank() },
    };
    form::a_line_is_scanned(
        start,
        line,
        ""@,
        |state: apx::ShowScanView, line: Seq<char>| apx::show_next_spec(state, line),
    );
    form::nothing_is_read();
}

/// An output of a single line is what that line says, and an empty one says
/// nothing.
pub proof fn single_results_are_read(line: Seq<char>)
    requires
        form::is_line(line),
    ensures
        ({
            let start = apx::SearchScanView { packages: seq![] };
            let end = apx::search_next_spec(start, line);
            apx::parse_search_spec(form::above(line, ""@)) == end.packages
        }),
        ({
            let end = apx::SearchScanView { packages: seq![] };
            apx::parse_search_spec(""@) == end.packages
        }),
{
    let start = apx::SearchScanView { packages: seq![] };
    form::a_line_is_scanned(
        start,
        line,
        ""@,
        |state: apx::SearchScanView, line: Seq<char>| apx::search_next_spec(state, line),
    );
    form::nothing_is_read();
}

/// A row without a name before a slash, or with too few columns behind it, is
/// no package.
pub proof fn other_rows_say_nothing(
    line: Seq<char>,
    more: Seq<char>,
    name: Seq<char>,
    rest: Seq<char>,
)
    requires
        form::is_line(line),
        line.cut("/"@) == Some((name, rest)),
        name.len() == 0 || name.has_blank() || rest.words().len() < 2,
    ensures
        apx::parse_list_spec(form::above(line, more)) == apx::parse_list_spec(more),
{
    form::a_row_is_read(line, more, |line: Seq<char>| apx::list_row_spec(line));
    form::nothing_is_read();
}

} // verus!

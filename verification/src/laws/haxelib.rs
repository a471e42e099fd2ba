//! What `haxelib` says, and what is asked of it.

use vstd::prelude::*;

use crate::backends::haxelib;
use crate::command::CmdView;
use crate::error::ErrorView;
use crate::form;
use crate::package::{InstallState, PackageView};
use crate::request::{OpContext, RequestView};
use crate::rows;
use crate::session::{self, ReplyView, StepView};
use crate::text::Text;

verus! {

/// A row `name: versions` is an installed library at the version in brackets.
pub proof fn listed_rows_are_read(
    line: Seq<char>,
    more: Seq<char>,
    name: Seq<char>,
    versions: Seq<char>,
)
    requires
        form::is_line(line),
        line.cut(":"@) == Some((name, versions)),
    ensures
        haxelib::parse_list_spec(form::above(line, more)) == seq![
            PackageView {
                name: name.trim(),
                version: haxelib::active_spec(versions),
                state: InstallState::Installed,
                ..PackageView::blank()
            },
        ] + haxelib::parse_list_spec(more),
        haxelib::parse_list_spec(""@) == Seq::<PackageView>::empty(),
{
    form::a_row_is_read(line, more, |line: Seq<char>| haxelib::list_row_spec(line));
    form::nothing_is_read();
}

/// The version in brackets is the active one; where none is, it is unknown.
pub proof fn the_active_version_is_in_brackets(
    versions: Seq<char>,
    first: Seq<char>,
    active: Seq<char>,
)
    requires
        haxelib::is_active(active),
        !haxelib::is_active(first),
    ensures
        versions.words() == seq![active] || versions.words() == seq![first, active]
            ==> haxelib::active_spec(versions) == Some(
            active.trim_front("[]"@).trim_back("[]"@).replace(',', "."@),
        ),
        versions.words() == seq![first] ==> haxelib::active_spec(versions) is None,
{
    let f = |v: Seq<char>| haxelib::is_active(v);
    rows::first_is_at(seq![active], f, 0);
    rows::first_is_at(seq![first, active], f, 1);
    rows::first_is_nowhere(seq![first], f);
}

/// Each field of a description goes where it belongs, whatever the case of its
/// key.
pub proof fn fields_go_where_they_belong(
    state: haxelib::InfoScanView,
    line: Seq<char>,
    key: Seq<char>,
    value: Seq<char>,
)
    requires
        line.cut(":"@) matches Some((k, v)) && k.trim().lower() == key && v.trim() == value,
    ensures
        key == "name"@ || key == "project"@
            ==> haxelib::info_next_spec(state, line) == (
                haxelib::InfoScanView { name: Some(value), ..state }
            ),
        key == "current version"@ || key == "version"@
            ==> haxelib::info_next_spec(state, line) == (
                haxelib::InfoScanView { version: Some(value), ..state }
            ),
        key == "description"@
            ==> haxelib::info_next_spec(state, line) == (
                haxelib::InfoScanView { description: Some(value), ..state }
            ),
{
    reveal_strlit("name");
    reveal_strlit("project");
    reveal_strlit("current version");
    reveal_strlit("version");
    reveal_strlit("description");
    assert("name"@.len() == 4);
    assert("project"@.len() == 7);
    assert("current version"@.len() == 15);
    assert("version"@.len() == 7);
    assert("description"@.len() == 11);
    assert("project"@[0] == 'p');
    assert("version"@[0] == 'v');
}

/// A row `name: description` is a library to be had.
pub proof fn search_rows_are_read(
    line: Seq<char>,
    more: Seq<char>,
    name: Seq<char>,
    description: Seq<char>,
)
    requires
        form::is_line(line),
        line.trim().len() > 0 && !line.trim().begins("Search"@),
        line.trim().cut(":"@) == Some((name, description)),
    ensures
        haxelib::parse_search_spec(form::above(line, more)) == seq![
            PackageView {
                name: name.trim(),
                description: Some(description.trim()),
                state: InstallState::Available,
                ..PackageView::blank()
            },
        ] + haxelib::parse_search_spec(more),
{
    form::a_row_is_read(line, more, |line: Seq<char>| haxelib::search_row_spec(line));
}

/// What is listed is installed at the listed version.
pub proof fn listed_libraries_are_installed(package: PackageView, listed: PackageView)
    ensures
        haxelib::merge_spec(package, seq![]) == package,
        haxelib::merge_spec(package, seq![listed]) == (PackageView {
            version: listed.version,
            state: InstallState::Installed,
            ..package
        }),
{
}

/// A request names the library, and its version where it is pinned.
pub proof fn requests_are_named(
    manager: haxelib::Manager,
    verb: Seq<char>,
    packages: Seq<RequestView>,
    ctx: OpContext,
    i: int,
)
    requires
        0 <= i < packages.len(),
    ensures
        ctx.dry_run ==> manager.each_spec(verb, packages, ctx) is Err,
        !ctx.dry_run ==> (manager.each_spec(verb, packages, ctx) matches Ok(commands)
            && commands.len() == packages.len() && commands[i] == ({
            let start = CmdView::new(manager.program@).flag(ctx.assume_yes, "--always"@).arg(verb).arg(
                packages[i].name,
            );
            match packages[i].version {
                Some(version) => start.arg(version),
                None => start,
            }
        })),
{
}

/// A library is described, then looked for among what is installed.
pub proof fn descriptions_are_merged(
    manager: haxelib::Manager,
    name: Seq<char>,
    package: PackageView,
    replies: Seq<ReplyView>,
)
    ensures
        ({
            let step = manager.info_spec(name, replies);
            let start = CmdView::new(manager.program@);
            &&& replies.len() == 0
                ==> step == session::ask::<PackageView>(start.arg("info"@).arg(name))
            &&& replies.len() > 0 && !replies[0].success ==> step == StepView::<PackageView>::Fail(
                ErrorView::NotFound(name),
            )
            &&& replies.len() > 0 && replies[0].success && haxelib::parse_info_spec(
                replies[0].stdout,
            ) == Some(package) ==> step == if replies.len() == 1 {
                session::ask(start.arg("list"@).arg(name))
            } else {
                StepView::Done(
                    haxelib::merge_spec(package, haxelib::parse_list_spec(replies[1].stdout)),
                )
            }
        }),
{
}

/// An output of a single line is what that line says, and an empty one says
/// nothing.
pub proof fn single_lines_are_read(line: Seq<char>)
    requires
        form::is_line(line),
    ensures
        ({
            let start = haxelib::InfoScanView { name: None, version: None, description: None };
            let end = haxelib::info_next_spec(start, line);
            haxelib::parse_info_spec(form::above(line, ""@)) == match end.name {
                Some(name) => Some(
                    PackageView {
                        name,
                        version: end.version,
                        description: end.description,
                        state: InstallState::Available,
                        ..PackageView::blank()
                    },
                ),
                None => None,
            }
        }),
        ({
            let end = haxelib::InfoScanView { name: None, version: None, description: None };
            haxelib::parse_info_spec(""@) == match end.name {
                Some(name) => Some(
                    PackageView {
                        name,
                        version: end.version,
                        description: end.description,
                        state: InstallState::Available,
                        ..PackageView::blank()
                    },
                ),
                None => None,
            }
        }),
{
    let start = haxelib::InfoScanView { name: None, version: None, description: None };
    form::a_line_is_scanned(
        start,
        line,
        ""@,
        |state: haxelib::InfoScanView, line: Seq<char>| haxelib::info_next_spec(state, line),
    );
    form::nothing_is_read();
}

/// A search result without a colon is a name; headings and empty lines are
/// none.
pub proof fn bare_results_are_names(line: Seq<char>)
    ensures
        line.trim().len() == 0 || line.trim().begins("Search"@)
            ==> haxelib::search_row_spec(line) is None,
        line.trim().len() > 0 && !line.trim().begins("Search"@) && line.trim().cut(":"@) is None
            ==> haxelib::search_row_spec(line) == Some(
                PackageView {
                    name: line.trim().trim(),
                    state: InstallState::Available,
                    ..PackageView::blank()
                },
            ),
        line.cut(":"@) is None ==> haxelib::list_row_spec(line) is None,
{

}

/// What was gathered from all lines is the library that is described.
pub proof fn descriptions_are_gathered(
    stdout: Seq<char>,
    end: haxelib::InfoScanView,
)
    requires
        end == rows::scan(
            haxelib::InfoScanView { name: None, version: None, description: None },
            stdout.lines(),
            |state: haxelib::InfoScanView, line: Seq<char>| haxelib::info_next_spec(state, line),
        ),
    ensures
        end.name is None ==> haxelib::parse_info_spec(stdout) is None,
        end.name is Some ==> haxelib::parse_info_spec(stdout) == Some(
            PackageView {
                name: end.name->0,
                version: end.version,
                description: end.description,
                state: InstallState::Available,
                ..PackageView::blank()
            },
        ),
{
}

/// A version is active where it stands in brackets.
pub proof fn active_versions_are_bracketed(version: Seq<char>)
    requires
        version.len() > 0 && version[0] != '[' && version[0] != ']' && version.last() != '['
            && version.last() != ']',
        !version.contains(','),
    ensures
        haxelib::is_active("["@ + version + "]"@),
        !haxelib::is_active(version),
{
    reveal_strlit("[");
    reveal_strlit("]");
    let s = "["@ + version + "]"@;
    assert(s =~= "["@ + (version + "]"@));
    form::a_prefix_is_found("["@, version + "]"@);
    form::a_suffix_is_found("["@ + version, "]"@);
    if version.begins("["@) {
        assert(version.take(1)[0] == '[');
    }
}

} // verus!

//! What `flatpak` says.

use vstd::prelude::*;

use crate::backends::flatpak;
use crate::command::CmdView;
use crate::form;
use crate::package::{InstallState, PackageView};
use crate::session::{self, ActionView, ReplyView, StepView};
use crate::text::Text;

verus! {

/// A row of application, version, name and origin, with tabs between them, is
/// an installed application.
pub proof fn listed_rows_are_read(
    line: Seq<char>,
    more: Seq<char>,
    id: Seq<char>,
    version: Seq<char>,
    title: Seq<char>,
    origin: Seq<char>,
)
    requires
        form::is_line(line),
        line.split("\t"@) == seq![id, version, title, origin],
        id.trim().len() > 0,
    ensures
        flatpak::parse_list_spec(form::above(line, more)) == seq![
            PackageView {
                name: id.trim(),
                version: version.trim().filled(),
                description: title.trim().filled(),
                origin: origin.trim().filled(),
                state: InstallState::Installed,
                ..PackageView::blank()
            },
        ] + flatpak::parse_list_spec(more),
        flatpak::parse_list_spec(""@) == Seq::<PackageView>::empty(),
{
    form::a_row_is_read(line, more, |line: Seq<char>| flatpak::list_row_spec(line));
    form::nothing_is_read();
}

/// A row of application, version, remotes and description, with tabs between
/// them, is an application to be had.
pub proof fn search_rows_are_read(
    line: Seq<char>,
    more: Seq<char>,
    id: Seq<char>,
    version: Seq<char>,
    remotes: Seq<char>,
    description: Seq<char>,
)
    requires
        form::is_line(line),
        line.split_some(4, "\t"@) == seq![id, version, remotes, description],
        id.trim().len() > 0,
    ensures
        flatpak::parse_search_spec(form::above(line, more)) == seq![
            PackageView {
                name: id.trim(),
                version: version.trim().filled(),
                origin: remotes.trim().filled(),
                description: description.trim().filled(),
                state: InstallState::Available,
                ..PackageView::blank()
            },
        ] + flatpak::parse_search_spec(more),
        flatpak::parse_search_spec(""@) == Seq::<PackageView>::empty(),
{
    form::a_row_is_read(line, more, |line: Seq<char>| flatpak::search_row_spec(line));
    form::nothing_is_read();
}

/// A row of application, version and origin, with tabs between them, is an
/// application that could be at that version.
pub proof fn updates_are_read(
    line: Seq<char>,
    more: Seq<char>,
    id: Seq<char>,
    version: Seq<char>,
    origin: Seq<char>,
)
    requires
        form::is_line(line),
        line.split("\t"@) == seq![id, version, origin],
        id.trim().len() > 0,
    ensures
        flatpak::parse_updates_spec(form::above(line, more)) == seq![
            PackageView {
                name: id.trim(),
                latest_version: version.trim().filled(),
                origin: origin.trim().filled(),
                state: InstallState::Upgradable,
                ..PackageView::blank()
            },
        ] + flatpak::parse_updates_spec(more),
        flatpak::parse_updates_spec(""@) == Seq::<PackageView>::empty(),
{
    form::a_row_is_read(line, more, |line: Seq<char>| flatpak::update_row_spec(line));
    form::nothing_is_read();
}

/// Each field of a description goes where it belongs.
pub proof fn fields_go_where_they_belong(package: PackageView, value: Seq<char>)
    ensures
        flatpak::keyed_spec(package, "ID"@, value) == (PackageView { name: value, ..package }),
        flatpak::keyed_spec(package, "Version"@, value) == (
            PackageView { version: Some(value), ..package }
        ),
        flatpak::keyed_spec(package, "License"@, value) == (
            PackageView { license: Some(value), ..package }
        ),
        flatpak::keyed_spec(package, "Arch"@, value) == (
            PackageView { architecture: Some(value), ..package }
        ),
        flatpak::keyed_spec(package, "Origin"@, value) == (
            PackageView { origin: Some(value), ..package }
        ),
        flatpak::keyed_spec(package, "Runtime"@, value) == (
            PackageView { dependencies: Some(seq![value]), ..package }
        ),
{
    reveal_strlit("ID");
    reveal_strlit("Version");
    reveal_strlit("License");
    reveal_strlit("Arch");
    reveal_strlit("Origin");
    reveal_strlit("Runtime");
    assert("ID"@.len() == 2);
    assert("Version"@.len() == 7);
    assert("License"@.len() == 7);
    assert("Arch"@.len() == 4);
    assert("Origin"@.len() == 6);
    assert("Runtime"@.len() == 7);
    assert("Version"@[0] == 'V');
    assert("License"@[0] == 'L');
    assert("Runtime"@[0] == 'R');
}

/// The first line says what the application is for, and the others are fields.
pub proof fn descriptions_are_read(
    state: flatpak::InfoScanView,
    line: Seq<char>,
    title: Seq<char>,
    text: Seq<char>,
    key: Seq<char>,
    value: Seq<char>,
)
    requires
        line.trim() == line && line.len() > 0,
    ensures
        flatpak::info_next_spec(state, line).started,
        !state.started && line.cut(" - "@) == Some((title, text)) && !title.has(":"@)
            ==> flatpak::info_next_spec(state, line).package == (PackageView {
            description: text.trim().filled(),
            ..state.package
        }),
        (state.started || line.cut(" - "@) is None) && (line.cut(":"@) matches Some((k, v)) && k.trim()
            == key && v.trim() == value) && value.len() > 0 ==> flatpak::info_next_spec(
            state,
            line,
        ).package == flatpak::keyed_spec(state.package, key, value),
        flatpak::info_next_spec(state, seq![]) == state,
{
    assert(Seq::<char>::empty().trim() =~= seq![]);
}

/// An outdated application takes its version and description from what is
/// installed, and its latest version from the remote.
pub proof fn updates_are_completed(
    package: PackageView,
    installed: Seq<PackageView>,
    current: PackageView,
)
    ensures
        session::called(installed, package.name) == Some(current) ==> flatpak::current_spec(
            package,
            installed,
        ) == (PackageView {
            version: current.version,
            description: current.description,
            ..package
        }),
        session::called(installed, package.name) is None ==> flatpak::current_spec(
            package,
            installed,
        ) == package,
{
}

/// The updates are asked for first; where there are any, what is installed is
/// asked for next, and each update is listed in its place.
pub proof fn updates_are_listed(manager: flatpak::Manager, replies: Seq<ReplyView>, i: int)
    ensures
        ({
            let step = manager.list_outdated_spec(replies);
            let query = CmdView::query(manager.program@);
            let outdated = flatpak::parse_updates_spec(replies[0].stdout);
            &&& replies.len() == 0 ==> step == session::ask::<Seq<PackageView>>(
                query.arg("remote-ls"@).arg("--updates"@).arg("--app"@).arg(
                    "--columns=application,version,origin"@,
                ),
            )
            &&& replies.len() > 0 && replies[0].success && outdated.len() == 0 ==> step
                == StepView::Done(Seq::<PackageView>::empty())
            &&& replies.len() == 1 && replies[0].success && outdated.len() > 0 ==> step
                == session::ask::<Seq<PackageView>>(
                query.arg("list"@).arg("--app"@).arg(
                    "--columns=application,version,name,origin"@,
                ),
            )
            &&& replies.len() == 2 && replies[0].success && replies[1].success
                && outdated.len() > 0
                ==> ({
                &&& step matches StepView::Done(packages)
                &&& packages.len() == outdated.len()
                &&& 0 <= i < outdated.len() ==> packages[i] == flatpak::current_spec(
                    outdated[i],
                    flatpak::parse_list_spec(replies[1].stdout),
                )
            })
        }),
{
}

/// What is installed is described first, and what is to be had next.
pub proof fn descriptions_are_looked_for_in_order(
    manager: flatpak::Manager,
    name: Seq<char>,
    package: PackageView,
    replies: Seq<ReplyView>,
)
    ensures
        ({
            let step = manager.info_spec(name, replies);
            let query = CmdView::query(manager.program@);
            &&& replies.len() == 0 ==> step == session::ask::<PackageView>(
                query.arg("info"@).arg(name),
            )
            &&& replies.len() > 0 && replies[0].success && flatpak::parse_info_spec(
                replies[0].stdout,
            ) == Some(package) ==> step == StepView::Done(package)
            &&& replies.len() == 1 && !replies[0].success ==> step == session::ask::<PackageView>(
                query.arg("search"@).arg("--columns=application,version,remotes,description"@).arg(
                    name,
                ),
            )
            &&& replies.len() == 2 && !replies[0].success && replies[1].success ==> step
                == session::found(
                session::called_but_case(flatpak::parse_search_spec(replies[1].stdout), name),
                name,
            )
        }),
{
}

/// An output of a single line is what that line says, and an empty one says
/// nothing.
pub proof fn single_lines_are_read(line: Seq<char>)
    requires
        form::is_line(line),
    ensures
        ({
            let start = flatpak::InfoScanView {
                package: PackageView { state: InstallState::Installed, ..PackageView::blank() },
                started: false,
            };
            let end = flatpak::info_next_spec(start, line);
            flatpak::parse_info_spec(
                form::above(line, ""@),
            ) == if end.package.name.len() == 0 { None } else { Some(end.package) }
        }),
        ({
            let end = flatpak::InfoScanView {
                package: PackageView { state: InstallState::Installed, ..PackageView::blank() },
                started: false,
            };
            flatpak::parse_info_spec(""@) == if end.package.name.len() == 0 { None } else {
                Some(end.package)
            }
        }),
{
    let start = flatpak::InfoScanView {
        package: PackageView { state: InstallState::Installed, ..PackageView::blank() },
        started: false,
    };
    form::a_line_is_scanned(
        start,
        line,
        ""@,
        |state: flatpak::InfoScanView, line: Seq<char>| flatpak::info_next_spec(state, line),
    );
    form::nothing_is_read();
}

/// A row with too few columns is no application.
pub proof fn short_rows_say_nothing(line: Seq<char>)
    ensures
        line.split("\t"@).len() < 4 ==> flatpak::list_row_spec(line) is None,
        line.split_some(4, "\t"@).len() < 4 ==> flatpak::search_row_spec(line) is None,
        line.split("\t"@).len() < 3 ==> flatpak::update_row_spec(line) is None,
        line.split("\t"@)[0].trim().len() == 0
            ==> flatpak::list_row_spec(line) is None && flatpak::update_row_spec(line) is None,
{

}

/// What fails is told.
pub proof fn failures_are_told(
    manager: flatpak::Manager,
    name: Seq<char>,
    replies: Seq<ReplyView>,
)
    ensures
        replies.len() > 0 && !replies[0].success
            ==> manager.list_outdated_spec(replies) == StepView::<
            Seq<PackageView>,
        >::Fail(replies[0].failure()),
        replies.len() == 2 && replies[0].success && !replies[1].success
            && flatpak::parse_updates_spec(replies[0].stdout).len() > 0
            ==> manager.list_outdated_spec(replies) == StepView::<Seq<PackageView>>::Fail(
            replies[1].failure(),
        ),
        replies.len() == 2 && !replies[0].success && !replies[1].success ==> manager.info_spec(
            name,
            replies,
        ) == StepView::<PackageView>::Fail(replies[1].failure()),
        replies.len() == 1 && replies[0].success && flatpak::parse_info_spec(
            replies[0].stdout,
        ) is None
            ==> (manager.info_spec(name, replies) matches StepView::Act(ActionView::Query(_))),
{
}

} // verus!

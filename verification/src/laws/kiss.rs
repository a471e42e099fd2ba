//! What `kiss` says.

use vstd::prelude::*;

use crate::backends::kiss;
use crate::command::CmdView;
use crate::error::ErrorView;
use crate::form;
use crate::package::{InstallState, PackageView};
use crate::path;
use crate::session::{self, ActionView, ReplyView, StepView};
use crate::text::Text;

verus! {

/// A row `name version release` is an installed package at that version and
/// release.
pub proof fn listed_rows_are_read(
    line: Seq<char>,
    more: Seq<char>,
    name: Seq<char>,
    version: Seq<char>,
    release: Seq<char>,
)
    requires
        form::is_line(line),
        line.words() == seq![name, version, release],
    ensures
        kiss::parse_list_spec(form::above(line, more)) == seq![
            PackageView {
                name,
                version: Some(version + " "@ + release),
                state: InstallState::Installed,
                ..PackageView::blank()
            },
        ] + kiss::parse_list_spec(more),
        kiss::parse_list_spec(""@) == Seq::<PackageView>::empty(),
{
    assert(seq![name, version, release].skip(1) =~= seq![version, release]);
    form::spaced_two(version, release);
    form::a_row_is_read(line, more, |line: Seq<char>| kiss::list_row_spec(line));
    form::nothing_is_read();
}

/// A path of a port is a package to be had from the repository that it stands
/// in, and one among what is installed is installed.
pub proof fn found_ports_are_read(
    line: Seq<char>,
    more: Seq<char>,
    name: Seq<char>,
    parent: Seq<char>,
)
    requires
        form::is_line(line),
        path::file_name_spec(line.trim()) == Some(name),
        path::parent_name_spec(line.trim()) == Some(parent),
    ensures
        kiss::parse_search_spec(form::above(line, more)) == seq![
            if parent == "installed"@ {
                PackageView { name, state: InstallState::Installed, ..PackageView::blank() }
            } else {
                PackageView {
                    name,
                    origin: Some(parent),
                    state: InstallState::Available,
                    ..PackageView::blank()
                }
            },
        ] + kiss::parse_search_spec(more),
        kiss::parse_search_spec(""@) == Seq::<PackageView>::empty(),
{
    form::a_row_is_read(line, more, |line: Seq<char>| kiss::search_row_spec(line));
    form::nothing_is_read();
}

/// The first port that is not among what is installed is the one described.
pub proof fn the_first_port_is_described(
    line: Seq<char>,
    more: Seq<char>,
    parent: Seq<char>,
)
    requires
        form::is_line(line),
        path::parent_name_spec(line.trim()) == Some(parent),
    ensures
        parent != "installed"@ ==> kiss::repo_hit_spec(form::above(line, more)) == Some(
            (line.trim(), parent),
        ),
        parent == "installed"@ ==> kiss::repo_hit_spec(form::above(line, more))
            == kiss::repo_hit_spec(more),
{
    form::a_row_is_read(line, more, |line: Seq<char>| kiss::hit_row_spec(line));
}

/// What is installed keeps its version, and another one of the port is the
/// latest.
pub proof fn installed_versions_are_compared(
    package: PackageView,
    local: PackageView,
    version: Seq<char>,
)
    requires
        package.latest_version is None,
    ensures
        kiss::merge_spec(package, None) == package,
        local.version is None ==> kiss::merge_spec(package, Some(local)) == (PackageView {
            state: InstallState::Installed,
            ..package
        }),
        local.version == Some(version) && package.version is Some
            && package.version != Some(version)
            ==> kiss::merge_spec(package, Some(local)) == (PackageView {
            version: Some(version),
            latest_version: package.version,
            state: InstallState::Installed,
            ..package
        }),
        local.version == Some(version) && (
            package.version is None || package.version == Some(version)
        )
            ==> kiss::merge_spec(package, Some(local)) == (PackageView {
            version: Some(version),
            state: InstallState::Installed,
            ..package
        }),
{
}

/// A package is searched for, the version of its port is read, and it is looked
/// for among what is installed.
pub proof fn ports_are_described_in_order(
    manager: kiss::Manager,
    name: Seq<char>,
    path: Seq<char>,
    origin: Seq<char>,
    replies: Seq<ReplyView>,
)
    ensures
        ({
            let step = manager.info_spec(name, replies);
            let query = CmdView::query(manager.program@);
            let port = PackageView {
                name,
                version: if replies[1].success {
                    kiss::parse_version_file_spec(replies[1].stdout)
                } else {
                    None
                },
                origin: Some(origin),
                state: InstallState::Available,
                ..PackageView::blank()
            };
            &&& replies.len() == 0
                ==> step == session::ask::<PackageView>(query.arg("s"@).arg(name))
            &&& replies.len() > 0 && (!replies[0].success || replies[0].stdout.trim().len() == 0)
                ==> step == StepView::<PackageView>::Fail(ErrorView::NotFound(name))
            &&& replies.len() > 0 && replies[0].success && replies[0].stdout.trim().len() > 0
                && kiss::repo_hit_spec(replies[0].stdout) == Some((path, origin)) ==> ({
                &&& replies.len() == 1 ==> step == StepView::<PackageView>::Act(
                    ActionView::ReadFile(path::join_spec(path, "version"@)),
                )
                &&& replies.len() == 2 ==> step == session::ask::<PackageView>(
                    query.arg("l"@).arg(name),
                )
                &&& replies.len() == 3 && replies[2].success ==> step == StepView::Done(
                    kiss::merge_spec(
                        port,
                        session::called(kiss::parse_list_spec(replies[2].stdout), name),
                    ),
                )
                &&& replies.len() == 3 && !replies[2].success ==> step == StepView::Done(port)
            })
        }),
{
    if replies.len() == 3 {
        assert(replies.skip(1).skip(1)[0] == replies[2]);
    }
}

/// What is only installed and has no port is looked for among what is installed.
pub proof fn packages_may_have_no_port(
    manager: kiss::Manager,
    name: Seq<char>,
    replies: Seq<ReplyView>,
)
    requires
        replies.len() > 0 && replies[0].success && replies[0].stdout.trim().len() > 0,
        kiss::repo_hit_spec(replies[0].stdout) is None,
    ensures
        replies.len() == 1 ==> manager.info_spec(name, replies) == session::ask::<PackageView>(
            CmdView::query(manager.program@).arg("l"@).arg(name),
        ),
        replies.len() == 2 && replies[1].success ==> manager.info_spec(name, replies)
            == StepView::Done(
            kiss::merge_spec(
                PackageView { name, state: InstallState::Available, ..PackageView::blank() },
                session::called(kiss::parse_list_spec(replies[1].stdout), name),
            ),
        ),
{
}

/// A row of a name alone is an installed package of which the version is
/// unknown.
pub proof fn bare_rows_are_read(line: Seq<char>, more: Seq<char>, name: Seq<char>)
    requires
        form::is_line(line),
        line.words() == seq![name],
    ensures
        kiss::parse_list_spec(form::above(line, more)) == seq![
            PackageView { name, state: InstallState::Installed, ..PackageView::blank() },
        ] + kiss::parse_list_spec(more),
        kiss::parse_list_spec(""@) == Seq::<PackageView>::empty(),
{
    form::a_row_is_read(line, more, |line: Seq<char>| kiss::list_row_spec(line));
    form::nothing_is_read();
}

} // verus!

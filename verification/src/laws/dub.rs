//! What `dub` says, and what is fetched.

use vstd::prelude::*;

use crate::backends::dub;
use crate::command::CmdView;
use crate::error::ErrorView;
use crate::form;
use crate::order;
use crate::package::{InstallState, PackageView};
use crate::request::{OpContext, RequestView};
use crate::session::{self, ActionView, ReplyView, StepView};
use crate::text::{self, Text};

verus! {

/// An indented row `name version: path` is an installed package.
pub proof fn listed_rows_are_read(
    line: Seq<char>,
    more: Seq<char>,
    head: Seq<char>,
    tail: Seq<char>,
    name: Seq<char>,
    version: Seq<char>,
)
    requires
        form::is_line(line),
        line.begins_blank(),
        line.cut(":"@) == Some((head, tail)),
        head.words() == seq![name, version],
    ensures
        dub::parse_list_spec(form::above(line, more)) == seq![
            PackageView {
                name,
                version: Some(version),
                state: InstallState::Installed,
                ..PackageView::blank()
            },
        ] + dub::parse_list_spec(more),
        dub::parse_list_spec(""@) == Seq::<PackageView>::empty(),
{
    form::a_row_is_read(line, more, |line: Seq<char>| dub::list_row_spec(line));
    form::nothing_is_read();
}

/// A row `name (version) description` is a package to be had.
pub proof fn search_rows_are_read(
    line: Seq<char>,
    more: Seq<char>,
    name: Seq<char>,
    version: Seq<char>,
    rest: Seq<char>,
)
    requires
        form::is_line(line),
        line.trim() == name + " ("@ + version + ")"@ + rest,
        text::is_word(name),
        !version.contains(')') && version.begins_digit(),
    ensures
        dub::parse_search_spec(form::above(line, more)) == seq![
            PackageView {
                name,
                version: Some(version),
                description: rest.trim().trim_front(":-"@).trim_start().filled(),
                state: InstallState::Available,
                ..PackageView::blank()
            },
        ] + dub::parse_search_spec(more),
        dub::parse_search_spec(""@) == Seq::<PackageView>::empty(),
{
    reveal_strlit(" (");
    reveal_strlit(")");
    form::a_word_is_a_phrase(name);
    assert(line.trim() =~= name + " ("@ + (version + ")"@ + rest));
    assert(!name.contains(' ')) by {
        assert(text::is_blank(' '));
    }
    form::a_cut_is_found(name, " ("@, version + ")"@ + rest);
    form::a_cut_is_found(version, ")"@, rest);
    form::a_row_is_read(line, more, |line: Seq<char>| dub::search_row_spec(line));
    form::nothing_is_read();
}

/// Of the versions of a package in the cache the last one counts.
pub proof fn the_last_version_counts(packages: Seq<PackageView>, package: PackageView)
    ensures
        dub::cached_spec(packages.push(package), package.name) == Some(package),
        forall|name: Seq<char>|
            name != package.name ==> #[trigger] dub::cached_spec(packages.push(package), name)
                == dub::cached_spec(packages, name),
{
    assert(packages.push(package).drop_last() =~= packages);
}

/// What is installed at another version than the one to be had keeps its
/// version, and the one to be had is the latest.
pub proof fn installed_versions_are_compared(package: PackageView, local: PackageView)
    ensures
        local.version is Some && local.version != package.version ==> dub::merge_spec(
            Some(package),
            Some(local),
        ) == Some(
            PackageView {
                version: local.version,
                latest_version: package.version,
                state: InstallState::Installed,
                ..package
            },
        ),
        local.version == package.version ==> dub::merge_spec(Some(package), Some(local)) == Some(
            PackageView { state: InstallState::Installed, ..package },
        ),
        dub::merge_spec(Some(package), None) == Some(package),
        dub::merge_spec(None, Some(local)) == Some(local),
        dub::merge_spec(None, None) is None,
{
}

/// What is named is fetched, each in its turn and at its version where it is
/// pinned; where nothing is named, every installed package is.
pub proof fn upgrading_fetches_each_package(
    manager: dub::Manager,
    packages: Seq<RequestView>,
    ctx: OpContext,
    replies: Seq<ReplyView>,
)
    requires
        !ctx.dry_run,
        forall|j: int| 0 <= j < replies.len() ==> (#[trigger] replies[j]).success,
    ensures
        packages.len() > 0 && replies.len() < packages.len() ==> manager.upgrade_spec(
            packages,
            ctx,
            replies,
        ) == StepView::<()>::Act(
            ActionView::Run(
                CmdView::new(manager.program@).arg("fetch"@).arg(
                    packages[replies.len() as int].pinned("@"@),
                ),
            ),
        ),
        replies.len() == 0 ==> manager.upgrade_spec(seq![], ctx, replies) == session::ask::<()>(
            CmdView::query(manager.program@).arg("list"@),
        ),
        replies.len() > 0 ==> ({
            let names = dub::names_spec(dub::parse_list_spec(replies[0].stdout));
            &&& replies.len() - 1 < names.len() ==> manager.upgrade_spec(seq![], ctx, replies)
                == StepView::<()>::Act(
                ActionView::Run(
                    CmdView::new(manager.program@).arg("fetch"@).arg(names[replies.len() - 1]),
                ),
            )
            &&& replies.len() - 1 == names.len() ==> manager.upgrade_spec(seq![], ctx, replies)
                == StepView::Done(())
        }),
{
    let asked = packages.map_values(|q: RequestView| manager.fetch_spec(q.pinned("@"@)));
    if replies.len() < asked.len() {
        session::commands_run_in_order(asked, replies);
    }
    if replies.len() > 0 {
        assert(replies[0].success);
        let names = dub::names_spec(dub::parse_list_spec(replies[0].stdout));
        let commands = names.map_values(|name: Seq<char>| manager.fetch_spec(name));
        let rest = replies.skip(1);
        assert forall|j: int| 0 <= j < rest.len() implies (#[trigger] rest[j]).success by {
            assert(rest[j] == replies[j + 1]);
        }
        if rest.len() <= commands.len() {
            session::commands_run_in_order(commands, rest);
        }
    }
}

/// What is installed at an unknown version is installed.
pub proof fn unknown_versions_are_installed(package: PackageView, local: PackageView)
    requires
        local.version is None,
    ensures
        dub::merge_spec(Some(package), Some(local)) == Some(
            PackageView { state: InstallState::Installed, ..package },
        ),
{
}

/// A row that is not indented is no package.
pub proof fn other_rows_say_nothing(line: Seq<char>, more: Seq<char>)
    requires
        form::is_line(line),
        !line.begins_blank(),
    ensures
        dub::parse_list_spec(form::above(line, more)) == dub::parse_list_spec(more),
{
    form::a_row_is_read(line, more, |line: Seq<char>| dub::list_row_spec(line));
    form::nothing_is_read();
}

/// A result without a version is no package.
pub proof fn other_results_say_nothing(
    line: Seq<char>,
    more: Seq<char>,
    name: Seq<char>,
    rest: Seq<char>,
)
    requires
        form::is_line(line),
        line.trim().cut(" ("@) == Some((name, rest)),
        name.len() == 0 || name.has_blank() || rest.cut(")"@) is None || (
            !(rest.cut(")"@)->0).0.begins_digit() && !(rest.cut(")"@)->0).0.begins("~"@)
        ),
    ensures
        dub::parse_search_spec(form::above(line, more)) == dub::parse_search_spec(more),
{
    form::a_row_is_read(line, more, |line: Seq<char>| dub::search_row_spec(line));
    form::nothing_is_read();
}

/// Each installed package is fetched once; a dry run is refused, and what fails
/// is told.
pub proof fn every_package_is_fetched(
    manager: dub::Manager,
    packages: Seq<PackageView>,
    requests: Seq<RequestView>,
    ctx: OpContext,
    replies: Seq<ReplyView>,
    i: int,
)
    ensures
        0 <= i < packages.len() ==> dub::names_spec(packages).contains(packages[i].name),
        forall|j: int, k: int|
            0 <= j < k < dub::names_spec(packages).len() ==> (#[trigger] dub::names_spec(
                packages,
            )[j]).before(#[trigger] dub::names_spec(packages)[k]),
        ctx.dry_run ==> manager.upgrade_spec(requests, ctx, replies) == StepView::<()>::Fail(
            ErrorView::Other("dub: upgrade has no dry-run mode"@),
        ),
        !ctx.dry_run && replies.len() > 0 && !replies[0].success ==> manager.upgrade_spec(
            seq![],
            ctx,
            replies,
        ) == StepView::<()>::Fail(replies[0].failure()),
{
    let names = packages.map_values(|p: PackageView| p.name);
    order::sorted_sets_ascend(names);
    if 0 <= i < packages.len() {
        assert(names[i] == packages[i].name);
        assert(names.contains(packages[i].name));
    }
}

} // verus!

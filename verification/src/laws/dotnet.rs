//! What `dotnet tool` says, and what is upgraded.

use vstd::prelude::*;

use crate::backends::dotnet;
use crate::command::CmdView;
use crate::error::ErrorView;
use crate::form;
use crate::package::{InstallState, PackageView};
use crate::request::{OpContext, RequestView};
use crate::rows;
use crate::session::{self, ActionView, PartView, ReplyView, StepView};
use crate::text::{self, Text};

verus! {

/// A row of a table names a tool and its version, in the state of the table.
pub proof fn table_rows_are_read(
    line: Seq<char>,
    name: Seq<char>,
    version: Seq<char>,
    state: InstallState,
)
    requires
        line.words().len() >= 2,
        line.words()[0] == name && line.words()[1] == version,
    ensures
        dotnet::table_row_spec(line, state) == Some(
            PackageView { name, version: Some(version), state, ..PackageView::blank() },
        ),
{

}

/// The rows of a table stand below its rule.
pub proof fn tables_stand_below_the_rule(
    head: Seq<char>,
    rule: Seq<char>,
    row: Seq<char>,
    name: Seq<char>,
    version: Seq<char>,
    state: InstallState,
)
    requires
        text::is_word(head),
        head.len() > 0 && head[0] != '-',
        text::is_word(rule) && rule.only("-"@),
        text::is_word(name) && text::is_word(version),
        row == form::spaced(seq![name, version]),
    ensures
        dotnet::parse_table_spec(
            form::above(head, form::above(rule, form::above(row, ""@))),
            state,
        )
            == seq![PackageView { name, version: Some(version), state, ..PackageView::blank() }],
        dotnet::parse_table_spec(
            form::above(row, ""@),
            state,
        ).len() == 0 || row.trim().only("-"@),
{
    form::a_word_is_a_phrase(head);
    form::a_word_is_a_phrase(rule);
    form::spaced_words(seq![name, version]);
    form::nothing_is_read();
    form::a_line_is_a_line(row, ""@);
    form::a_line_is_a_line(rule, form::above(row, ""@));
    form::a_line_is_a_line(head, form::above(rule, form::above(row, ""@)));
    let lines = form::above(head, form::above(rule, form::above(row, ""@))).lines();
    assert(lines =~= seq![head, rule, row]);
    let f = |line: Seq<char>| dotnet::is_separator_spec(line);
    reveal_strlit("-");
    assert(!dotnet::is_separator_spec(head)) by {
        if head.only("-"@) {
            assert("-"@.contains(head[0]));
        }
    }
    assert(dotnet::is_separator_spec(rule));
    reveal_with_fuel(rows::index, 4);
    assert(lines.skip(1)[0] == rule);
    assert(rows::index(lines.skip(1), f) == 0);
    assert(rows::index(lines, f) == 1);
    assert(lines.skip(2) =~= seq![row]);
    let g = |line: Seq<char>| dotnet::table_row_spec(line, state);
    form::a_row_is_read(row, ""@, g);
    assert(form::above(row, ""@).lines() =~= seq![row]);
    let all = dotnet::parse_table_spec(
        form::above(head, form::above(rule, form::above(row, ""@))),
        state,
    );
    let one = PackageView { name, version: Some(version), state, ..PackageView::blank() };
    assert(all =~= seq![one] + rows::select(""@.lines(), g));
    assert(all =~= seq![one]);
    let alone = seq![row];
    assert(alone.skip(1) =~= seq![]);
    if !row.trim().only("-"@) {
        assert(rows::index(alone, f) == -1);
    }
}

/// Each field of a description goes where it belongs.
pub proof fn fields_go_where_they_belong(
    package: PackageView,
    line: Seq<char>,
    key: Seq<char>,
    value: Seq<char>,
)
    requires
        line.cut(":"@) matches Some((k, v)) && k.trim() == key && v.trim() == value,
        value.len() > 0,
    ensures
        key == "Latest Version"@
            ==> dotnet::field_spec(package, line) == (
                PackageView { version: Some(value), ..package }
            ),
        key == "Description"@
            ==> dotnet::field_spec(package, line) == (
                PackageView { description: Some(value), ..package }
            ),
        key == "Summary"@
            ==> dotnet::field_spec(package, line) == (
                PackageView {
                    description: if package.description is None { Some(value) } else {
                        package.description
                    },
                    ..package
                }
            ),
{
    reveal_strlit("Latest Version");
    reveal_strlit("Description");
    reveal_strlit("Summary");
    assert("Latest Version"@.len() == 14);
    assert("Description"@.len() == 11);
    assert("Summary"@.len() == 7);
}

/// Below a rule stands the name of the next tool, and the lines after it belong
/// to that tool.
pub proof fn descriptions_stand_below_rules(state: dotnet::DetailScanView, line: Seq<char>)
    ensures
        ({
            let next = dotnet::detail_next_spec(state, line);
            &&& dotnet::is_separator_spec(line) ==> next == (dotnet::DetailScanView {
                expecting: true,
                ..state
            })
            &&& !dotnet::is_separator_spec(line) && state.expecting && line.trim().len() > 0
                ==> next
                == (dotnet::DetailScanView {
                packages: state.packages.push(
                    PackageView {
                        name: line.trim(),
                        state: InstallState::Available,
                        ..PackageView::blank()
                    },
                ),
                expecting: false,
            })
            &&& !dotnet::is_separator_spec(line) && !state.expecting && !line.begins_blank()
                && state.packages.len() > 0 ==> next == (dotnet::DetailScanView {
                packages: state.packages.drop_last().push(
                    dotnet::field_spec(state.packages.last(), line),
                ),
                ..state
            })
            &&& !dotnet::is_separator_spec(line) && !state.expecting && (line.begins_blank()
                || state.packages.len() == 0) ==> next == state
        }),
{
}

/// A tool that is installed at another version than the one found can be
/// upgraded to it; at the same version it is up to date; and one that is found
/// or installed alone is as it is.
pub proof fn installed_versions_are_compared(found: PackageView, local: PackageView)
    ensures
        local.version is Some && local.version != found.version ==> dotnet::merge_spec(
            Some(found),
            Some(local),
        ) == Some(
            PackageView {
                version: local.version,
                latest_version: found.version,
                state: InstallState::Upgradable,
                ..found
            },
        ),
        local.version == found.version ==> dotnet::merge_spec(Some(found), Some(local)) == Some(
            PackageView { state: InstallState::Installed, ..found },
        ),
        dotnet::merge_spec(Some(found), None) == Some(found),
        dotnet::merge_spec(None, Some(local)) == Some(local),
        dotnet::merge_spec(None, None) is None,
{
}

/// An installed tool is outdated exactly where another version of it is found,
/// and that is its latest version.
pub proof fn newer_versions_are_found(installed: PackageView, found: Seq<PackageView>)
    ensures
        match session::called_but_case(found, installed.name) {
            Some(other) => if other.version is Some && other.version != installed.version {
                dotnet::newer_spec(installed, found) == Some(
                    PackageView {
                        latest_version: other.version,
                        state: InstallState::Upgradable,
                        ..installed
                    },
                )
            } else {
                dotnet::newer_spec(installed, found) is None
            },
            None => dotnet::newer_spec(installed, found) is None,
        },
{
}

/// Each installed tool is searched for in its turn.
pub proof fn each_tool_is_searched_for(
    manager: dotnet::Manager,
    known: Seq<PackageView>,
    installed: Seq<PackageView>,
    replies: Seq<ReplyView>,
)
    requires
        forall|i: int| 0 <= i < replies.len() ==> (#[trigger] replies[i]).success,
    ensures
        replies.len() < installed.len() ==> manager.outdated_spec(known, installed, replies)
            == session::ask::<Seq<PackageView>>(
            CmdView::query(manager.program@).env("DOTNET_NOLOGO"@, "1"@).arg("tool"@).arg(
                "search"@,
            ).arg(installed[replies.len() as int].name).arg("--take"@).arg("200"@),
        ),
        replies.len() >= installed.len()
            ==> manager.outdated_spec(known, installed, replies) is Done,
    decreases installed.len(),
{
    if installed.len() > 0 && replies.len() > 0 {
        assert(replies[0].success);
        let rest = replies.skip(1);
        assert forall|i: int| 0 <= i < rest.len() implies (#[trigger] rest[i]).success by {
            assert(rest[i] == replies[i + 1]);
        }
        each_tool_is_searched_for(
            manager,
            rows::added(
                known,
                dotnet::newer_spec(
                    installed[0],
                    dotnet::parse_table_spec(replies[0].stdout, InstallState::Available),
                ),
            ),
            installed.skip(1),
            rest,
        );
    }
}

/// Everything is upgraded at once where that works; else each installed tool in
/// its turn.
pub proof fn upgrading_covers_every_tool(
    manager: dotnet::Manager,
    ctx: OpContext,
    replies: Seq<ReplyView>,
    i: int,
)
    requires
        !ctx.dry_run,
        forall|j: int| 1 <= j < replies.len() ==> (#[trigger] replies[j]).success,
    ensures
        ({
            let step = manager.upgrade_spec(seq![], ctx, replies);
            let update = CmdView::new(manager.program@).arg("tool"@).arg("update"@).arg(
                "--global"@,
            );
            &&& replies.len() == 0 ==> step == StepView::<()>::Act(
                ActionView::Attempt(update.arg("--all"@)),
            )
            &&& replies.len() > 0 && replies[0].success ==> step == StepView::Done(())
            &&& replies.len() == 1 && !replies[0].success ==> (step matches StepView::Act(
                ActionView::Query(_),
            ))
            &&& replies.len() > 1 && !replies[0].success ==> ({
                let installed = dotnet::parse_table_spec(
                    replies[1].stdout,
                    InstallState::Installed,
                );
                &&& replies.len() - 2 < installed.len() ==> step == StepView::<()>::Act(
                    ActionView::Run(update.arg(installed[replies.len() - 2].name)),
                )
                &&& replies.len() - 2 == installed.len() ==> step == StepView::Done(())
            })
        }),
{
    if replies.len() > 1 && !replies[0].success {
        let rest = replies.skip(1).skip(1);
        assert(replies.skip(1)[0] == replies[1]);
        assert(replies[1].success);
        let installed = dotnet::parse_table_spec(replies[1].stdout, InstallState::Installed);
        let commands = installed.map_values(|p: PackageView| manager.update_spec(p.name, None));
        assert forall|j: int| 0 <= j < rest.len() implies (#[trigger] rest[j]).success by {
            assert(rest[j] == replies[j + 2]);
        }
        if rest.len() <= commands.len() {
            session::commands_run_in_order(commands, rest);
        }
    }
}

/// An output of a single line is what that line says, and an empty one says
/// nothing.
pub proof fn single_lines_are_read(line: Seq<char>)
    requires
        form::is_line(line),
    ensures
        ({
            let start = dotnet::DetailScanView { packages: seq![], expecting: false };
            let end = dotnet::detail_next_spec(start, line);
            dotnet::parse_detail_spec(form::above(line, ""@)) == end.packages
        }),
        ({
            let end = dotnet::DetailScanView { packages: seq![], expecting: false };
            dotnet::parse_detail_spec(""@) == end.packages
        }),
{
    let start = dotnet::DetailScanView { packages: seq![], expecting: false };
    form::a_line_is_scanned(
        start,
        line,
        ""@,
        |state: dotnet::DetailScanView, line: Seq<char>| dotnet::detail_next_spec(state, line),
    );
    form::nothing_is_read();
}

/// What is installed at an unknown version is installed.
pub proof fn unknown_versions_are_installed(package: PackageView, local: PackageView)
    requires
        local.version is None,
    ensures
        dotnet::merge_spec(Some(package), Some(local)) == Some(
            PackageView { version: None, state: InstallState::Installed, ..package },
        ),
{
}

/// A tool is searched for, then looked for among what is installed.
pub proof fn descriptions_are_compared(
    manager: dotnet::Manager,
    name: Seq<char>,
    replies: Seq<ReplyView>,
)
    ensures
        ({
            let step = manager.info_spec(name, replies);
            let query = CmdView::query(manager.program@).env("DOTNET_NOLOGO"@, "1"@).arg("tool"@);
            &&& replies.len() == 0 ==> step == session::ask::<PackageView>(
                query.arg("search"@).arg("--detail"@).arg(name),
            )
            &&& replies.len() == 1 ==> step == session::ask::<PackageView>(
                query.arg("list"@).arg("--global"@),
            )
            &&& replies.len() == 2 && !replies[1].success ==> step == StepView::<PackageView>::Fail(
                replies[1].failure(),
            )
            &&& replies.len() == 2 && replies[1].success ==> step == session::found(
                dotnet::merge_spec(
                    session::called_but_case(dotnet::parse_detail_spec(replies[0].stdout), name),
                    session::called_but_case(
                        dotnet::parse_table_spec(replies[1].stdout, InstallState::Installed),
                        name,
                    ),
                ),
                name,
            )
        }),
{
}

/// What is installed is asked for once.
pub proof fn tools_are_listed(manager: dotnet::Manager, replies: Seq<ReplyView>)
    ensures
        replies.len() == 0 ==> manager.installed_spec(replies) == PartView::<Seq<PackageView>>::Act(
            ActionView::Query(
                CmdView::query(manager.program@).env("DOTNET_NOLOGO"@, "1"@).arg("tool"@).arg(
                    "list"@,
                ).arg("--global"@),
            ),
        ),
        replies.len() > 0 && !replies[0].success
            ==> manager.installed_spec(replies) == PartView::<
            Seq<PackageView>,
        >::Fail(replies[0].failure()),
        replies.len() > 0 && replies[0].success ==> manager.installed_spec(replies) == PartView::Got(
            dotnet::parse_table_spec(replies[0].stdout, InstallState::Installed),
            replies.skip(1),
        ),
{
}

/// What is named is updated, each in its turn and to its version where it is
/// pinned; a dry run is refused.
pub proof fn named_tools_are_updated(
    manager: dotnet::Manager,
    packages: Seq<RequestView>,
    ctx: OpContext,
    replies: Seq<ReplyView>,
)
    requires
        replies.len() < packages.len(),
        forall|j: int| 0 <= j < replies.len() ==> (#[trigger] replies[j]).success,
    ensures
        ctx.dry_run ==> manager.upgrade_spec(packages, ctx, replies) == StepView::<()>::Fail(
            ErrorView::Other("dotnet: update has no dry-run mode"@),
        ),
        !ctx.dry_run ==> manager.upgrade_spec(packages, ctx, replies) == StepView::<()>::Act(
            ActionView::Run(
                CmdView::new(manager.program@).arg("tool"@).arg("update"@).arg("--global"@).option(
                    "--version"@,
                    packages[replies.len() as int].version,
                ).arg(packages[replies.len() as int].name),
            ),
        ),
{
    let commands = packages.map_values(
        |q: RequestView| manager.update_spec(q.name, q.version),
    );
    session::commands_run_in_order(commands, replies);
}

/// What is found newer is listed behind what was found before.
pub proof fn newer_tools_are_listed(
    manager: dotnet::Manager,
    known: Seq<PackageView>,
    installed: Seq<PackageView>,
    replies: Seq<ReplyView>,
)
    requires
        installed.len() > 0 && replies.len() > 0,
    ensures
        !replies[0].success ==> manager.outdated_spec(known, installed, replies) == StepView::<
            Seq<PackageView>,
        >::Fail(replies[0].failure()),
        replies[0].success ==> manager.outdated_spec(known, installed, replies)
            == manager.outdated_spec(
            match dotnet::newer_spec(
                installed[0],
                dotnet::parse_table_spec(replies[0].stdout, InstallState::Available),
            ) {
                Some(package) => known.push(package),
                None => known,
            },
            installed.skip(1),
            replies.skip(1),
        ),
        manager.outdated_spec(known, seq![], replies) == StepView::Done(known),
{
}

} // verus!

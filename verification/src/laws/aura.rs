//! What Aura says, and what is done next.

use vstd::prelude::*;

use crate::backends::aura;
use crate::command::CmdView;
use crate::error::ErrorView;
use crate::form;
use crate::package::{InstallState, PackageView};
use crate::request::{self, OpContext, RequestView};
use crate::session::{self, ActionView, ReplyView, StepView};
use crate::text::{self, Text};

verus! {

/// A row `name old -> new` is a package at the old version that could be at
/// the new one.
pub proof fn outdated_rows_give_both_versions(
    name: Seq<char>,
    old_version: Seq<char>,
    new_version: Seq<char>,
    more: Seq<char>,
)
    requires
        text::is_word(name),
        text::is_word(old_version),
        text::is_word(new_version),
    ensures
        ({
            let row = name + " "@ + old_version + " -> "@ + new_version;
            let package = PackageView {
                name,
                version: Some(old_version),
                latest_version: Some(new_version),
                state: InstallState::Upgradable,
                ..PackageView::blank()
            };
            &&& aura::parse_outdated_spec(row) == seq![package]
            &&& aura::parse_outdated_spec(form::above(row, more)) == seq![package]
                + aura::parse_outdated_spec(more)
        }),
        aura::parse_outdated_spec(""@) == Seq::<PackageView>::empty(),
{
    let row = name + " "@ + old_version + " -> "@ + new_version;
    let words = seq![name, old_version, "->"@, new_version];
    form::spaced_arrow(name, old_version, new_version);
    form::spaced_words(words);
    let f = |line: Seq<char>| aura::outdated_row_spec(line);
    form::a_row_is_read(row, more, f);
    form::a_row_is_read_alone(row, f);
    form::nothing_is_read();
}

/// A row `name version` is an installed package.
pub proof fn installed_rows_are_installed(
    name: Seq<char>,
    version: Seq<char>,
    more: Seq<char>,
)
    requires
        text::is_word(name),
        text::is_word(version),
    ensures
        aura::parse_installed_spec(form::above(form::spaced(seq![name, version]), more)) == seq![
            PackageView {
                name,
                version: Some(version),
                state: InstallState::Installed,
                ..PackageView::blank()
            },
        ] + aura::parse_installed_spec(more),
        aura::parse_installed_spec(""@) == Seq::<PackageView>::empty(),
{
    form::spaced_words(seq![name, version]);
    form::a_row_is_read(
        form::spaced(seq![name, version]),
        more,
        |line: Seq<char>| aura::installed_row_spec(line),
    );
    form::nothing_is_read();
}

/// A result `repository/name version` is a package of that repository, and the
/// indented line below it describes it.
pub proof fn search_results_are_read(
    repository: Seq<char>,
    name: Seq<char>,
    version: Seq<char>,
    description: Seq<char>,
)
    requires
        text::is_word(repository),
        !repository.contains('/'),
        text::is_word(name),
        text::is_word(version),
        !repository.contains('[') && !name.contains('[') && !version.contains('['),
        form::is_phrase(description),
    ensures
        ({
            let found = PackageView {
                name,
                version: Some(version),
                origin: Some(repository),
                state: InstallState::Available,
                ..PackageView::blank()
            };
            let row = form::spaced(seq![repository + "/"@ + name, version]);
            let installed = form::spaced(
                seq![repository + "/"@ + name, version, "[installed]"@],
            );
            &&& aura::header_spec(row) == Some(found)
            &&& aura::header_spec(installed) == Some(
                PackageView { state: InstallState::Installed, ..found },
            )
            &&& aura::parse_search_spec(
                form::above(row, form::above("    "@ + description, ""@)),
            ) == seq![PackageView { description: Some(description), ..found }]
        }),
{
    reveal_strlit("/");
    reveal_strlit(" ");
    reveal_strlit("    ");
    reveal_strlit("[installed");
    reveal_strlit("[installed]");
    let first = repository + "/"@ + name;
    assert(text::is_word(first)) by {
        assert forall|i: int| 0 <= i < first.len() implies !text::is_blank(#[trigger] first[i]) by {
            if i < repository.len() {
                assert(first[i] == repository[i]);
            } else if i > repository.len() {
                assert(first[i] == name[i - repository.len() - 1]);
            }
        }
    }
    form::a_cut_is_found(repository, "/"@, name);
    form::spaced_words(seq![first, version]);
    form::spaced_words(seq![first, version, "[installed]"@]);
    form::spaced_two(first, version);
    form::spaced_three(first, version, "[installed]"@);
    let row = form::spaced(seq![first, version]);
    let installed = form::spaced(seq![first, version, "[installed]"@]);
    assert(row =~= repository + "/"@ + name + " "@ + version);
    assert(!row.contains('[')) by {
        assert forall|i: int| 0 <= i < row.len() implies #[trigger] row[i] != '[' by {
            let a = repository.len();
            let b = name.len();
            if i < a {
                assert(row[i] == repository[i] && repository.contains(repository[i]));
            } else if a < i < a + 1 + b {
                assert(row[i] == name[i - a - 1] && name.contains(name[i - a - 1]));
            } else if i > a + 1 + b {
                assert(row[i] == version[i - a - b - 2] && version.contains(
                    version[i - a - b - 2],
                ));
            }
        }
    }
    form::no_cut_is_found(row, "[installed"@);
    assert("[installed]"@ =~= "[installed"@ + seq![']']);
    let before = row + " "@;
    assert(!before.contains('[')) by {
        assert forall|i: int| 0 <= i < before.len() implies #[trigger] before[i] != '[' by {
            if i < row.len() {
                assert(before[i] == row[i] && row.contains(row[i]));
            }
        }
    }
    assert(installed =~= before + "[installed"@ + seq![']']);
    form::a_cut_is_found(before, "[installed"@, seq![']']);
    let start = aura::SearchScanView::start();
    let f = |state: aura::SearchScanView, line: Seq<char>| aura::search_next_spec(state, line);
    let line = "    "@ + description;
    form::an_indent_is_trimmed("    "@, description);
    form::a_line_is_scanned(start, row, form::above(line, ""@), f);
    form::a_line_is_scanned(f(start, row), line, ""@, f);
    form::nothing_is_read();
    let found = aura::header_spec(row)->0;
    assert(f(start, row).packages =~= seq![found]);
    assert(f(start, row).packages.drop_last() =~= seq![]);
    assert(f(f(start, row), line).packages =~= seq![
        PackageView { description: Some(description), ..found },
    ]);
}

/// Each field of a description goes where it belongs.
pub proof fn fields_go_where_they_belong(package: PackageView, value: Seq<char>)
    requires
        value.len() > 0,
        value != "None"@,
    ensures
        aura::keyed_spec(package, "Name"@, value) == (PackageView { name: value, ..package }),
        aura::keyed_spec(package, "Version"@, value) == (
            PackageView { version: Some(value), ..package }
        ),
        aura::keyed_spec(package, "Description"@, value) == (
            PackageView { description: Some(value), ..package }
        ),
        aura::keyed_spec(package, "URL"@, value) == (
            PackageView { homepage: Some(value), ..package }
        ),
        aura::keyed_spec(package, "Licenses"@, value) == (
            PackageView { license: Some(value), ..package }
        ),
        aura::keyed_spec(package, "Architecture"@, value) == (
            PackageView { architecture: Some(value), ..package }
        ),
        aura::keyed_spec(package, "Repository"@, value) == (
            PackageView { origin: Some(value), ..package }
        ),
        aura::keyed_spec(package, "Depends On"@, value) == (
            PackageView { dependencies: Some(value.words()), ..package }
        ),
        aura::keyed_spec(package, "Name"@, "None"@) == package,
{
    reveal_strlit("Name");
    reveal_strlit("Version");
    reveal_strlit("Description");
    reveal_strlit("URL");
    reveal_strlit("Licenses");
    reveal_strlit("License");
    reveal_strlit("Architecture");
    reveal_strlit("Repository");
    reveal_strlit("Depends On");
    reveal_strlit("Depends");
    assert("Name"@.len() == 4);
    assert("Version"@.len() == 7);
    assert("Description"@.len() == 11);
    assert("URL"@.len() == 3);
    assert("Licenses"@.len() == 8);
    assert("License"@.len() == 7);
    assert("Architecture"@.len() == 12);
    assert("Repository"@.len() == 10);
    assert("Depends On"@.len() == 10);
    assert("Depends"@.len() == 7);
    assert("Version"@[0] == 'V');
    assert("License"@[0] == 'L');
    assert("Depends"@[0] == 'D');
    assert("Repository"@[0] == 'R');
    assert("Depends On"@[0] == 'D');
}

/// A description of one line for each field gives the package that it describes.
pub proof fn descriptions_are_read(name: Seq<char>, version: Seq<char>, state: InstallState)
    requires
        form::is_phrase(name),
        form::is_phrase(version),
        name != "None"@,
        version != "None"@,
    ensures
        aura::parse_info_spec(
            form::above(
                form::field("Name"@, name),
                form::above(form::field("Version"@, version), ""@),
            ),
            state,
        ) == Some(PackageView { name, version: Some(version), state, ..PackageView::blank() }),
        aura::parse_info_spec(""@, state) is None,
{
    reveal_strlit("Name");
    reveal_strlit("Version");
    form::a_field_is_cut("Name"@, name);
    form::a_field_is_cut("Version"@, version);
    reveal_strlit(":");
    let start = aura::FieldScanView { fields: seq![] };
    let f = |state: aura::FieldScanView, line: Seq<char>| aura::field_next_spec(state, line);
    let first = form::field("Name"@, name);
    let second = form::field("Version"@, version);
    form::a_line_is_scanned(start, first, form::above(second, ""@), f);
    form::a_line_is_scanned(f(start, first), second, ""@, f);
    form::nothing_is_read();
    assert(f(start, first).fields =~= seq![("Name"@, name)]);
    let end = f(f(start, first), second).fields;
    assert(end =~= seq![("Name"@, name), ("Version"@, version)]);
    assert(end.drop_last() =~= seq![("Name"@, name)]);
    assert(end.drop_last().drop_last() =~= seq![]);
    reveal_with_fuel(aura::filled_spec, 4);
}

/// What is installed from the repositories is what the repositories know, and
/// what is built is the rest: with every name looked up, each is in exactly one
/// of the two commands.
pub proof fn names_are_sorted_by_their_replies(
    names: Seq<Seq<char>>,
    replies: Seq<ReplyView>,
    i: int,
)
    requires
        0 <= i < names.len() <= replies.len(),
    ensures
        aura::classified_spec(names, replies, replies[i].success).contains(names[i]),
        names.len() == 1 ==> !aura::classified_spec(names, replies, !replies[i].success).contains(
            names[i],
        ),
        aura::classified_spec(names, replies, true).len() + aura::classified_spec(
            names,
            replies,
            false,
        ).len() == names.len(),
    decreases names.len(),
{
    let found = replies[i].success;
    let front = names.drop_last();
    let rest = aura::classified_spec(front, replies, found);
    let all = aura::classified_spec(names, replies, found);
    if names.len() == 1 {
        reveal_with_fuel(aura::classified_spec, 2);
        assert(all[0] == names[0]);
    } else if i == names.len() - 1 {
        names_are_sorted_by_their_replies(front, replies, 0);
        assert(all[rest.len() as int] == names[i]);
    } else {
        names_are_sorted_by_their_replies(front, replies, i);
        assert(front[i] == names[i]);
        let j = choose|j: int| 0 <= j < rest.len() && rest[j] == names[i];
        assert(all[j] == names[i]);
    }
}

/// Every name is looked up in its turn; then what the repositories know is
/// installed from them and the rest is built.
pub proof fn installing_looks_up_each_name(
    manager: aura::Manager,
    packages: Seq<RequestView>,
    needed: bool,
    ctx: OpContext,
    replies: Seq<ReplyView>,
)
    ensures
        replies.len() < packages.len() ==> manager.sorted_install_spec(
            packages,
            needed,
            ctx,
            replies,
        ) == StepView::<()>::Act(
            ActionView::Query(
                CmdView::query(manager.program@).arg("-Si"@).arg(
                    packages[replies.len() as int].name,
                ),
            ),
        ),
        packages.len() == 1 && replies.len() == 1 ==> manager.sorted_install_spec(
            packages,
            needed,
            ctx,
            replies,
        ) == StepView::<()>::Act(
            ActionView::Run(
                if replies[0].success {
                    CmdView::new(manager.program@).arg("-S"@).flag(needed, "--needed"@).flag(
                        ctx.assume_yes,
                        "--noconfirm"@,
                    ).args(seq![packages[0].name])
                } else {
                    CmdView::new(manager.program@).arg("-A"@).flag(
                        ctx.assume_yes,
                        "--noconfirm"@,
                    ).args(seq![packages[0].name])
                },
            ),
        ),
{
    if packages.len() == 1 && replies.len() == 1 {
        let names = request::names(packages);
        assert(names =~= seq![packages[0].name]);
        reveal_with_fuel(aura::classified_spec, 2);
        assert(names.drop_last() =~= seq![]);
        let empty = Seq::<Seq<char>>::empty();
        assert(aura::classified_spec(names, replies, replies[0].success) =~= names);
        assert(aura::classified_spec(names, replies, !replies[0].success) =~= empty);
        let commands = manager.both_spec(
            aura::classified_spec(names, replies, true),
            aura::classified_spec(names, replies, false),
            needed,
            ctx,
        );
        assert(commands.len() == 1);
        assert(replies.skip(1).len() == 0);
    }
}

/// A package is described by what is installed; else by the repositories; else
/// by the user repository.
pub proof fn descriptions_are_looked_for_in_order(
    manager: aura::Manager,
    name: Seq<char>,
    replies: Seq<ReplyView>,
)
    ensures
        ({
            let step = manager.info_spec(name, replies);
            let query = CmdView::query(manager.program@);
            &&& replies.len() == 0 ==> step == session::ask::<PackageView>(
                query.arg("-Qi"@).arg(name),
            )
            &&& replies.len() > 0 && replies[0].success ==> (aura::parse_info_spec(
                replies[0].stdout,
                InstallState::Installed,
            ) matches Some(package) ==> step == StepView::Done(package))
            &&& replies.len() == 1 && !replies[0].success ==> step == session::ask::<PackageView>(
                query.arg("-Si"@).arg(name),
            )
            &&& replies.len() == 2 && !replies[0].success && !replies[1].success ==> step
                == session::ask::<PackageView>(query.arg("-Ai"@).arg(name))
            &&& replies.len() == 3 && !replies[0].success && !replies[1].success
                && !replies[2].success ==> step == StepView::<PackageView>::Fail(
                ErrorView::NotFound(name),
            )
            &&& step is Done && replies.len() > 1 && !replies[0].success ==> replies[1].success
                || (replies.len() > 2 && replies[2].success)
        }),
{
}

/// An output of a single line is what that line says, and an empty one says
/// nothing.
pub proof fn single_results_are_read(line: Seq<char>)
    requires
        form::is_line(line),
    ensures
        ({
            let start = aura::SearchScanView { packages: seq![] };
            let end = aura::search_next_spec(start, line);
            aura::parse_search_spec(form::above(line, ""@)) == end.packages
        }),
        ({
            let end = aura::SearchScanView { packages: seq![] };
            aura::parse_search_spec(""@) == end.packages
        }),
{
    let start = aura::SearchScanView { packages: seq![] };
    form::a_line_is_scanned(
        start,
        line,
        ""@,
        |state: aura::SearchScanView, line: Seq<char>| aura::search_next_spec(state, line),
    );
    form::nothing_is_read();
}

/// A row without an arrow is not outdated.
pub proof fn other_rows_are_not_outdated(line: Seq<char>, more: Seq<char>)
    requires
        form::is_line(line),
        line.words().len() < 4 || line.words()[2] != "->"@,
    ensures
        aura::parse_outdated_spec(form::above(line, more)) == aura::parse_outdated_spec(more),
{
    form::a_row_is_read(line, more, |line: Seq<char>| aura::outdated_row_spec(line));
    form::nothing_is_read();
}

/// What a search printed is read, also where the command failed.
pub proof fn results_are_read_after_failures(reply: ReplyView)
    ensures
        reply.success || reply.stdout.trim().len() > 0 ==> aura::hits_spec(reply)
            == aura::parse_search_spec(reply.stdout),
        !reply.success && reply.stdout.trim().len() == 0 ==> aura::hits_spec(reply).len() == 0,
{
}

/// A line without a key, or an indented one, goes on with the field above it.
pub proof fn fields_go_on(
    state: aura::FieldScanView,
    line: Seq<char>,
    key: Seq<char>,
    value: Seq<char>,
)
    requires
        line.trim().len() > 0,
    ensures
        (line.begins_blank() || !line.has(":"@)) && state.fields.len() > 0 && state.fields.last() == (
            key,
            value,
        ) ==> aura::field_next_spec(state, line).fields == state.fields.drop_last().push(
            (key, value + " "@ + line.trim()),
        ),
        (line.begins_blank() || !line.has(":"@)) && state.fields.len() == 0 ==> aura::field_next_spec(
            state,
            line,
        ) == state,
        !line.begins_blank() && line.has(":"@) && (line.cut(":"@) matches Some((k, v)) && k.trim()
            == key && v.trim() == value) ==> aura::field_next_spec(state, line).fields
            == state.fields.push((key, value)),
{
}

/// Descriptions that take several lines are joined by spaces.
pub proof fn descriptions_grow(packages: Seq<PackageView>, text: Seq<char>, more: Seq<char>)
    requires
        packages.len() > 0 && more.len() > 0,
    ensures
        packages.last().description == Some(text) ==> aura::described_spec(packages, more)
            == packages.drop_last().push(
            PackageView { description: Some(text + " "@ + more), ..packages.last() },
        ),
        packages.last().description is None ==> aura::described_spec(packages, more)
            == packages.drop_last().push(
                PackageView { description: Some(more), ..packages.last() },
            ),
        aura::described_spec(seq![], more).len() == 0,
{
}

} // verus!

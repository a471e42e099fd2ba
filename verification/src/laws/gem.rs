//! What `gem` says, and what is asked of it.

use vstd::prelude::*;

use crate::backends::gem;
use crate::command::CmdView;
use crate::error::ErrorView;
use crate::form;
use crate::package::{InstallState, PackageView};
use crate::pattern;
use crate::request::{OpContext, RequestView};
use crate::session::{self, ActionView, ReplyView, StepView};
use crate::text::{self, Text};

verus! {

/// A row `name (version, ...)` is a gem at the first version, in the state of
/// the listing.
pub proof fn listed_rows_are_read(
    line: Seq<char>,
    more: Seq<char>,
    name: Seq<char>,
    versions: Seq<char>,
    version: Seq<char>,
    state: InstallState,
)
    requires
        form::is_line(line),
        text::is_word(name),
        line == name + " ("@ + versions + ")"@,
        versions.split(","@)[0].trim() == version
            || versions.split(","@)[0].trim() == "default: "@ + version,
        text::is_word(version) && !version.begins("default: "@),
    ensures
        gem::parse_gem_lines_spec(form::above(line, more), state) == seq![
            PackageView { name, version: Some(version), state, ..PackageView::blank() },
        ] + gem::parse_gem_lines_spec(more, state),
        gem::parse_gem_lines_spec(""@, state) == Seq::<PackageView>::empty(),
{
    reveal_strlit(" (");
    reveal_strlit(" ");
    reveal_strlit(")");
    form::a_word_is_a_phrase(name);
    assert(text::is_blank(' '));
    assert(line[0] == name[0]);
    assert(line =~= name + " ("@ + (versions + ")"@));
    form::a_cut_is_found(name, " ("@, versions + ")"@);
    form::a_suffix_is_found(versions, ")"@);
    form::a_prefix_is_found("default: "@, version);
    form::a_word_is_a_phrase(version);
    form::a_row_is_read(line, more, |line: Seq<char>| gem::gem_row_spec(line, state));
    form::nothing_is_read();
}

/// A row `name (old < new)` is a gem at the old version that could be at the
/// new one.
pub proof fn outdated_rows_give_both_versions(
    line: Seq<char>,
    more: Seq<char>,
    name: Seq<char>,
    old_version: Seq<char>,
    new_version: Seq<char>,
)
    requires
        form::is_line(line),
        text::is_word(name) && text::is_word(old_version) && text::is_word(new_version),
        line == name + " ("@ + (old_version + " < "@ + new_version) + ")"@,
    ensures
        gem::parse_outdated_spec(form::above(line, more)) == seq![
            PackageView {
                name,
                version: Some(old_version),
                latest_version: Some(new_version),
                state: InstallState::Upgradable,
                ..PackageView::blank()
            },
        ] + gem::parse_outdated_spec(more),
        gem::parse_outdated_spec(""@) == Seq::<PackageView>::empty(),
{
    reveal_strlit(" (");
    reveal_strlit(" ");
    reveal_strlit(")");
    form::a_word_is_a_phrase(name);
    assert(text::is_blank(' '));
    reveal_strlit(" < ");
    let versions = old_version + " < "@ + new_version;
    assert(line =~= name + " ("@ + (versions + ")"@));
    form::a_cut_is_found(name, " ("@, versions + ")"@);
    form::a_suffix_is_found(versions, ")"@);
    form::a_cut_is_found(old_version, " < "@, new_version);
    form::a_row_is_read(line, more, |line: Seq<char>| gem::outdated_row_spec(line));
    form::nothing_is_read();
}

/// Above the first empty line stand the fields of a gem, below it what is said
/// of it; a header opens the next gem.
pub proof fn details_are_read(
    state: gem::DetailScanView,
    line: Seq<char>,
    name: Seq<char>,
    version: Seq<char>,
)
    ensures
        ({
            let next = gem::detail_next_spec(state, line);
            let text = line.trim();
            &&& next.state == state.state
            &&& text.len() == 0 ==> next.packages == state.packages && next.prose == (
            state.packages.len() > 0)
            &&& text.len() > 0 && !line.begins_blank() && gem::parse_header_spec(line) == Some(
                (name, version),
            ) ==> next.packages == state.packages.push(
                PackageView {
                    name,
                    version: Some(version),
                    state: state.state,
                    ..PackageView::blank()
                },
            ) && !next.prose
            &&& text.len() > 0 && line.begins_blank() && state.packages.len() > 0
                ==> next.packages
                == state.packages.drop_last().push(
                gem::detail_spec(state.packages.last(), text, state.prose),
            ) && next.prose == state.prose
        }),
{
}

/// Each field of a gem goes where it belongs, and prose is joined by spaces.
pub proof fn fields_go_where_they_belong(
    package: PackageView,
    text: Seq<char>,
    key: Seq<char>,
    value: Seq<char>,
)
    ensures
        (
            text.cut(":"@) matches Some((k, v)) && k.trim() == key && v.trim() == value
        ) && key == "Homepage"@
            ==> gem::detail_spec(package, text, false) == (
                PackageView { homepage: Some(value), ..package }
            ),
        (
            text.cut(":"@) matches Some((k, v)) && k.trim() == key && v.trim() == value
        ) && (key == "License"@ || key == "Licenses"@)
            ==> gem::detail_spec(package, text, false) == (
                PackageView { license: Some(value), ..package }
            ),
        package.description is None
            ==> gem::detail_spec(package, text, true) == (
                PackageView { description: Some(text), ..package }
            ),
        package.description == Some(value)
            ==> gem::detail_spec(package, text, true) == (
                PackageView { description: Some(value + " "@ + text), ..package }
            ),
{
    reveal_strlit("Homepage");
    reveal_strlit("License");
    reveal_strlit("Licenses");
    assert("Homepage"@.len() == 8);
    assert("License"@.len() == 7);
    assert("Licenses"@.len() == 8);
    assert("Homepage"@[0] == 'H');
    assert("Licenses"@[0] == 'L');
}

/// A gem is installed at its version where one is asked for; an upgrade of one
/// that is not pinned goes to the newest version.
pub proof fn gems_are_asked_for(
    manager: gem::Manager,
    request: RequestView,
    version: Seq<char>,
    ctx: OpContext,
)
    ensures
        request.version is None ==> manager.install_spec(request, ctx) == CmdView::new(
            manager.program@,
        ).arg("install"@).arg(request.name).flag(ctx.dry_run, "--explain"@),
        request.version == Some(version) ==> manager.install_spec(request, ctx) == CmdView::new(
            manager.program@,
        ).arg("install"@).arg(request.name).arg("-v"@).arg(version).flag(
            ctx.dry_run,
            "--explain"@,
        ),
        request.version is None ==> manager.upgrade_spec(request, ctx) == CmdView::new(
            manager.program@,
        ).arg("update"@).arg(request.name).flag(ctx.dry_run, "--explain"@),
        request.version is Some ==> manager.upgrade_spec(request, ctx) == manager.install_spec(
            request,
            ctx,
        ),
{
    let start = CmdView::new(manager.program@).arg("install"@);
    assert(start.args(seq![request.name]).args =~= start.arg(request.name).args);
    assert(start.args(seq![request.name, "-v"@, version]).args =~= start.arg(request.name).arg(
        "-v"@,
    ).arg(version).args);
}

/// What is installed is described first, and what is to be had next.
pub proof fn descriptions_are_looked_for_in_order(
    manager: gem::Manager,
    name: Seq<char>,
    replies: Seq<ReplyView>,
)
    ensures
        ({
            let step = manager.info_spec(name, replies);
            let local = session::called(
                gem::parse_details_spec(replies[0].stdout, InstallState::Installed),
                name,
            );
            &&& replies.len() == 0 ==> step == session::ask::<PackageView>(
                CmdView::query(manager.program@).arg("info"@).arg(name),
            )
            &&& replies.len() > 0 && replies[0].success && local is Some ==> step == StepView::Done(
                local->0,
            )
            &&& replies.len() == 1 && (!replies[0].success || local is None) ==> (step matches
                StepView::Act(ActionView::Query(command)) && command.args[0] == "search"@)
            &&& replies.len() == 2 && (
                !replies[0].success || local is None
            ) && !replies[1].success
                ==> step == StepView::<PackageView>::Fail(ErrorView::NotFound(name))
            &&& replies.len() == 2 && (!replies[0].success || local is None) && replies[1].success
                ==> step == session::found(
                session::called(
                    gem::parse_details_spec(replies[1].stdout, InstallState::Available),
                    name,
                ),
                name,
            )
        }),
{
}

/// An output of a single line is what that line says, and an empty one says
/// nothing.
pub proof fn single_lines_are_read(line: Seq<char>, state: InstallState)
    requires
        form::is_line(line),
    ensures
        ({
            let start = gem::DetailScanView { packages: seq![], prose: false, state };
            let end = gem::detail_next_spec(start, line);
            gem::parse_details_spec(form::above(line, ""@), state) == end.packages
        }),
        ({
            let end = gem::DetailScanView { packages: seq![], prose: false, state };
            gem::parse_details_spec(""@, state) == end.packages
        }),
{
    let start = gem::DetailScanView { packages: seq![], prose: false, state };
    form::a_line_is_scanned(
        start,
        line,
        ""@,
        |state: gem::DetailScanView, line: Seq<char>| gem::detail_next_spec(state, line),
    );
    form::nothing_is_read();
}

/// An indented line, and one without a version, is no gem.
pub proof fn other_rows_say_nothing(line: Seq<char>, more: Seq<char>, state: InstallState)
    requires
        form::is_line(line),
        line.begins_blank() || line.cut(" ("@) is None,
    ensures
        gem::parse_gem_lines_spec(
            form::above(line, more),
            state,
        ) == gem::parse_gem_lines_spec(more, state),
{
    form::a_row_is_read(line, more, |line: Seq<char>| gem::gem_row_spec(line, state));
    form::nothing_is_read();
}

/// A gem is a single word before the bracket.
pub proof fn openings_have_names(line: Seq<char>, name: Seq<char>, rest: Seq<char>)
    requires
        line.cut(" ("@) == Some((name, rest)),
    ensures
        name.len() > 0 && !name.has_blank() ==> gem::opening_spec(line) == Some((name, rest)),
        name.len() == 0 || name.has_blank() ==> gem::opening_spec(line) is None,
{

}

/// Names are escaped in patterns, but for what can stand in a name.
pub proof fn names_are_escaped(name: Seq<char>)
    ensures
        gem::regex_escape_spec(name) == pattern::escaped(name, "_-"@),
{
}

} // verus!

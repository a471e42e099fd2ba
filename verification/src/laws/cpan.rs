//! What `cpan` and Perl say.

use vstd::prelude::*;

use crate::backends::cpan;
use crate::error::ErrorView;
use crate::form;
use crate::package::{InstallState, PackageView};
use crate::rows;
use crate::session::{self, ActionView, ReplyView, StepView};
use crate::text::{self, Text};

verus! {

/// A row of name and version, with a tab between them, is an installed module.
pub proof fn installed_rows_are_read(
    line: Seq<char>,
    more: Seq<char>,
    name: Seq<char>,
    version: Seq<char>,
)
    requires
        form::is_line(line),
        !name.contains('\t'),
        form::is_phrase(version),
        line == name + "\t"@ + version,
    ensures
        cpan::parse_installed_spec(form::above(line, more)) == seq![
            PackageView {
                name,
                version: Some(version),
                state: InstallState::Installed,
                ..PackageView::blank()
            },
        ] + cpan::parse_installed_spec(more),
        cpan::parse_installed_spec(""@) == Seq::<PackageView>::empty(),
{
    reveal_strlit("\t");
    form::a_cut_is_found(name, "\t"@, version);
    form::a_phrase_is_a_line(version);
    form::a_row_is_read(line, more, |line: Seq<char>| cpan::installed_row_spec(line));
    form::nothing_is_read();
}

/// A row of name, installed and latest version is a module at the one that
/// could be at the other.
pub proof fn outdated_rows_give_both_versions(
    line: Seq<char>,
    more: Seq<char>,
    name: Seq<char>,
    old_version: Seq<char>,
    new_version: Seq<char>,
)
    requires
        form::is_line(line),
        line.words() == seq![name, old_version, new_version],
        old_version.begins_digit() && new_version.begins_digit(),
    ensures
        cpan::parse_outdated_spec(form::above(line, more)) == seq![
            PackageView {
                name,
                version: Some(old_version),
                latest_version: Some(new_version),
                state: InstallState::Upgradable,
                ..PackageView::blank()
            },
        ] + cpan::parse_outdated_spec(more),
        cpan::parse_outdated_spec(""@) == Seq::<PackageView>::empty(),
{
    form::a_row_is_read(line, more, |line: Seq<char>| cpan::outdated_row_spec(line));
    form::nothing_is_read();
}

/// A line that begins with a name of several parts is a module to be had.
pub proof fn namespaces_are_read(line: Seq<char>, more: Seq<char>, name: Seq<char>)
    requires
        form::is_line(line),
        line.words().len() > 0,
        line.words()[0] == name,
        name.has("::"@),
    ensures
        cpan::parse_namespaces_spec(form::above(line, more)) == seq![
            PackageView { name, state: InstallState::Available, ..PackageView::blank() },
        ] + cpan::parse_namespaces_spec(more),
        cpan::parse_namespaces_spec(""@) == Seq::<PackageView>::empty(),
{
    form::a_row_is_read(line, more, |line: Seq<char>| cpan::namespace_row_spec(line));
    form::nothing_is_read();
}

/// What is found holds the query, whatever the case, and nothing else that
/// holds it is left out.
pub proof fn matches_hold_the_query(
    packages: Seq<PackageView>,
    query: Seq<char>,
    package: PackageView,
)
    ensures
        cpan::matching_spec(
            packages,
            query,
        ).contains(package) <==> packages.contains(package) && package.name.lower().has(
            query.lower(),
        ),
{
    rows::kept_are_exactly(packages, |p: PackageView| p.name.lower().has(query.lower()));
}

/// Above the rule stands the name; below it, the installed version, the latest
/// one and the description.
pub proof fn details_are_read(
    state: cpan::DetailScanView,
    line: Seq<char>,
    text: Seq<char>,
    version: Seq<char>,
)
    requires
        line.trim() == text,
        text.len() > 0,
    ensures
        !line.begins_blank() && text.len() >= 4 && text.only("-"@)
            ==> cpan::detail_next_spec(state, line) == (
                cpan::DetailScanView { ruled: true, ..state }
            ),
        !line.begins_blank() && !text.only("-"@) && !state.ruled
            ==> cpan::detail_next_spec(state, line) == (
                cpan::DetailScanView { name: Some(text), ..state }
            ),
        line.begins_blank() && !state.ruled ==> cpan::detail_next_spec(state, line) == state,
        line.begins_blank() && state.ruled && text == "Installed:"@ + version
            && version.trim().len() > 0 && version.trim() != "not installed"@
            ==> cpan::detail_next_spec(state, line) == (
                cpan::DetailScanView { installed: Some(version.trim()), detailed: true, ..state }
            ),
        line.begins_blank() && state.ruled && text == "Installed:"@ + version
            && version.trim() == "not installed"@
            ==> cpan::detail_next_spec(state, line) == (
                cpan::DetailScanView { detailed: true, ..state }
            ),
        line.begins_blank() && state.ruled && text == "CPAN:"@ + version
            && version.words().len() > 0
            ==> cpan::detail_next_spec(state, line) == (
                cpan::DetailScanView {
                    latest: Some(version.words()[0]),
                    current: !version.has("Not up to date"@),
                    detailed: true,
                    ..state
                }
            ),
        line.begins_blank() && state.ruled && !text.begins(
            "Installed:"@,
        ) && !text.begins("CPAN:"@) && !state.detailed && text != "(no description)"@
            ==> cpan::detail_next_spec(state, line) == (
                cpan::DetailScanView { description: Some(text), detailed: true, ..state }
            ),
{
    form::a_prefix_is_found("Installed:"@, version);
    form::a_prefix_is_found("CPAN:"@, version);
    if text == "CPAN:"@ + version && text.begins("Installed:"@) {
        reveal_strlit("Installed:");
        reveal_strlit("CPAN:");
        assert(text[0] == "CPAN:"@[0]);
        assert(text.take(10)[0] == "Installed:"@[0]);
    }
}

/// What is installed and current is up to date; what is installed and not
/// current can be upgraded to the latest version; what is not installed is to
/// be had at the latest version.
pub proof fn details_are_compared(
    stdout: Seq<char>,
    fallback: Seq<char>,
    end: cpan::DetailScanView,
    installed: Option<PackageView>,
)
    requires
        end == rows::scan(
            cpan::DetailScanView::start(),
            stdout.lines(),
            |state: cpan::DetailScanView, line: Seq<char>| cpan::detail_next_spec(state, line),
        ),
        end.ruled && end.latest is Some,
    ensures
        ({
            &&& cpan::parse_details_spec(stdout, fallback, installed) matches Some(package)
            &&& package.name == if end.name is Some {
                end.name->0
            } else {
                fallback
            }
            &&& package.description == end.description
            &&& end.installed is None && installed is None ==> package.state
                == InstallState::Available && package.version == end.latest
                && package.latest_version is None
            &&& end.installed is Some ==> package.version == end.installed
            &&& end.installed is None && installed is Some && installed->0.version is Some
                ==> package.version == installed->0.version
            &&& (end.installed is Some || installed is Some) && end.current ==> package.state
                == InstallState::Installed && package.latest_version is None
            &&& (end.installed is Some || installed is Some) && !end.current ==> package.state
                == InstallState::Upgradable && package.latest_version == end.latest
        }),
{
}

/// The details are asked for first, and what is installed next.
pub proof fn details_come_first(manager: cpan::Manager, name: Seq<char>, replies: Seq<ReplyView>)
    ensures
        ({
            let step = manager.info_spec(name, replies);
            &&& replies.len() == 0 ==> (step matches StepView::Act(ActionView::Query(command))
                && command.program == manager.program@ && command.args == seq!["-D"@, name])
            &&& replies.len() > 0 && !replies[0].success ==> step == StepView::<PackageView>::Fail(
                ErrorView::NotFound(name),
            )
            &&& replies.len() == 1 && replies[0].success ==> (step matches StepView::Act(
                ActionView::Query(command),
            ) && command.program == manager.perl@)
            &&& replies.len() == 2 && replies[0].success && replies[1].success ==> step
                == session::found(
                cpan::parse_details_spec(
                    replies[0].stdout,
                    name,
                    session::called(cpan::parse_installed_spec(replies[1].stdout), name),
                ),
                name,
            )
        }),
{
    if replies.len() == 0 {
        let command = manager.cmd_spec().arg("-D"@).arg(name);
        assert(command.args =~= seq!["-D"@, name]);
    }
}

/// A row without two versions is not outdated.
pub proof fn other_rows_are_not_outdated(line: Seq<char>, more: Seq<char>)
    requires
        form::is_line(line),
        line.words().len() != 3 || !line.words()[1].begins_digit()
            || !line.words()[2].begins_digit(),
    ensures
        cpan::parse_outdated_spec(form::above(line, more)) == cpan::parse_outdated_spec(more),
{
    form::a_row_is_read(line, more, |line: Seq<char>| cpan::outdated_row_spec(line));
    form::nothing_is_read();
}

/// A line that begins with a single word in lower case is no module.
pub proof fn other_words_are_no_modules(line: Seq<char>, more: Seq<char>, name: Seq<char>)
    requires
        form::is_line(line),
        line.words().len() > 0 && line.words()[0] == name,
        !name.has("::"@) && name.len() > 0 && !text::unicode_uppercase(name[0]),
    ensures
        cpan::parse_namespaces_spec(form::above(line, more)) == cpan::parse_namespaces_spec(more),
{
    form::a_row_is_read(line, more, |line: Seq<char>| cpan::namespace_row_spec(line));
    form::nothing_is_read();
}

/// A line that begins with a capital is a module to be had.
pub proof fn capitals_are_modules(line: Seq<char>, more: Seq<char>, name: Seq<char>)
    requires
        form::is_line(line),
        line.words().len() > 0 && line.words()[0] == name,
        name.len() > 0 && text::unicode_uppercase(name[0]),
    ensures
        cpan::parse_namespaces_spec(form::above(line, more)) == seq![
            PackageView { name, state: InstallState::Available, ..PackageView::blank() },
        ] + cpan::parse_namespaces_spec(more),
        cpan::parse_namespaces_spec(""@) == Seq::<PackageView>::empty(),
{
    form::a_row_is_read(line, more, |line: Seq<char>| cpan::namespace_row_spec(line));
    form::nothing_is_read();
}

/// Without a rule or a latest version there is nothing to tell, and what fails
/// is told.
pub proof fn details_can_be_missing(
    manager: cpan::Manager,
    name: Seq<char>,
    installed: Option<PackageView>,
    replies: Seq<ReplyView>,
)
    ensures
        cpan::parse_details_spec(""@, name, installed) is None,
        replies.len() == 2 && replies[0].success && !replies[1].success ==> manager.info_spec(
            name,
            replies,
        ) == StepView::<PackageView>::Fail(replies[1].failure()),
{
    form::nothing_is_read();
}

} // verus!

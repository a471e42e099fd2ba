//! What `apt-get`, `apt-cache` and `rpm` say on ALT Linux.

use vstd::prelude::*;

use crate::backends::apt_rpm;
use crate::command::CmdView;
use crate::error::ErrorView;
use crate::form;
use crate::package::{self, InstallState, PackageView};
use crate::session::{self, ReplyView, StepView};
use crate::text::{self, Text};

verus! {

/// A row of name, version and architecture, with tabs between them, is an
/// installed package.
pub proof fn installed_rows_are_read(
    line: Seq<char>,
    more: Seq<char>,
    name: Seq<char>,
    version: Seq<char>,
    architecture: Seq<char>,
)
    requires
        form::is_line(line),
        name.len() > 0,
        line.split("\t"@) == seq![name, version, architecture],
    ensures
        apt_rpm::parse_rpm_list_spec(form::above(line, more)) == seq![
            PackageView {
                name,
                version: Some(version),
                architecture: Some(architecture),
                state: InstallState::Installed,
                ..PackageView::blank()
            },
        ] + apt_rpm::parse_rpm_list_spec(more),
        apt_rpm::parse_rpm_list_spec(""@) == Seq::<PackageView>::empty(),
{
    form::a_row_is_read(line, more, |line: Seq<char>| apt_rpm::rpm_row_spec(line));
    form::nothing_is_read();
}

/// A row `name - description` is a package to be had.
pub proof fn search_rows_are_read(
    line: Seq<char>,
    more: Seq<char>,
    name: Seq<char>,
    description: Seq<char>,
)
    requires
        form::is_line(line),
        text::is_word(name),
        line.cut(" - "@) matches Some((n, d)) && n == name && d.trim() == description,
    ensures
        apt_rpm::parse_search_spec(form::above(line, more)) == seq![
            PackageView {
                name,
                description: Some(description),
                state: InstallState::Available,
                ..PackageView::blank()
            },
        ] + apt_rpm::parse_search_spec(more),
        apt_rpm::parse_search_spec(""@) == Seq::<PackageView>::empty(),
{
    form::a_word_is_a_phrase(name);
    form::a_row_is_read(line, more, |line: Seq<char>| apt_rpm::search_row_spec(line));
    form::nothing_is_read();
}

/// A row `Inst name [old] (new ...)` is a package at the old version that could
/// be at the new one.
pub proof fn outdated_rows_give_both_versions(
    line: Seq<char>,
    more: Seq<char>,
    rest: Seq<char>,
    name: Seq<char>,
    old_word: Seq<char>,
    new_word: Seq<char>,
    old_version: Seq<char>,
    new_version: Seq<char>,
)
    requires
        form::is_line(line),
        line == "Inst "@ + rest,
        rest.words().len() > 2,
        rest.words()[0] == name && rest.words()[1] == old_word && rest.words()[2] == new_word,
        old_word == "["@ + old_version + "]"@,
        new_word == "("@ + new_version || new_word == "("@ + new_version + ")"@,
        old_version.len() > 0 && old_version.last() != ']',
        new_version.len() > 0 && new_version.last() != ')',
    ensures
        apt_rpm::parse_outdated_spec(form::above(line, more)) == seq![
            PackageView {
                name,
                version: Some(old_version),
                latest_version: Some(new_version),
                state: InstallState::Upgradable,
                ..PackageView::blank()
            },
        ] + apt_rpm::parse_outdated_spec(more),
        apt_rpm::parse_outdated_spec(""@) == Seq::<PackageView>::empty(),
{
    reveal_strlit("[");
    reveal_strlit("]");
    reveal_strlit("(");
    reveal_strlit(")");
    assert("["@.len() == 1);
    assert("]"@.len() == 1);
    assert("("@.len() == 1);
    assert(")"@.len() == 1);
    assert("["@[0] == '[');
    assert("]"@[0] == ']');
    assert("("@[0] == '(');
    assert(")"@[0] == ')');
    form::a_prefix_is_found("Inst "@, rest);
    form::a_bracket_is_trimmed(old_version, "]"@);
    form::a_bracket_is_trimmed(new_version, ")"@);
    assert(old_word =~= "["@ + (old_version + "]"@));
    form::a_prefix_is_found("["@, old_version + "]"@);
    form::a_prefix_is_found("("@, new_version);
    form::a_prefix_is_found("("@, new_version + ")"@);
    if new_word == "("@ + new_version + ")"@ {
        assert(new_word =~= "("@ + (new_version + ")"@));
    }
    form::a_row_is_read(line, more, |line: Seq<char>| apt_rpm::outdated_row_spec(line));
    form::nothing_is_read();
}

/// Each field of a description goes where it belongs.
pub proof fn fields_go_where_they_belong(package: PackageView, value: Seq<char>)
    ensures
        apt_rpm::keyed_spec(package, "Package"@, value) == (
            PackageView { name: value, ..package }
        ),
        apt_rpm::keyed_spec(package, "Version"@, value) == (
            PackageView { version: Some(value), ..package }
        ),
        apt_rpm::keyed_spec(package, "Architecture"@, value) == (
            PackageView { architecture: Some(value), ..package }
        ),
        apt_rpm::keyed_spec(package, "Section"@, value) == (
            PackageView { origin: Some(value), ..package }
        ),
        apt_rpm::keyed_spec(package, "Homepage"@, value) == (
            PackageView { homepage: Some(value), ..package }
        ),
        apt_rpm::keyed_spec(package, "Size"@, value) == (
            PackageView { download_size: value.number(), ..package }
        ),
        apt_rpm::keyed_spec(package, "Depends"@, value) == (
            PackageView { dependencies: Some(package::dependency_names(value)), ..package }
        ),
        apt_rpm::keyed_spec(package, "Description"@, value) == (
            PackageView { description: Some(value), ..package }
        ),
{
    reveal_strlit("Package");
    reveal_strlit("Version");
    reveal_strlit("Architecture");
    reveal_strlit("Section");
    reveal_strlit("Homepage");
    reveal_strlit("Size");
    reveal_strlit("Depends");
    reveal_strlit("Description");
    assert("Package"@.len() == 7);
    assert("Version"@.len() == 7);
    assert("Architecture"@.len() == 12);
    assert("Section"@.len() == 7);
    assert("Homepage"@.len() == 8);
    assert("Size"@.len() == 4);
    assert("Depends"@.len() == 7);
    assert("Description"@.len() == 11);
    assert("Package"@[0] == 'P');
    assert("Version"@[0] == 'V');
    assert("Section"@[0] == 'S');
    assert("Depends"@[0] == 'D');
}

/// A field on a line of its own is taken in; a line that is indented is not a field.
pub proof fn fields_are_taken_in(
    state: apt_rpm::ShowScanView,
    line: Seq<char>,
    key: Seq<char>,
    value: Seq<char>,
)
    requires
        line.cut(":"@) matches Some((k, v)) && k.trim() == key && v.trim() == value,
        line.trim().len() > 0,
        !state.done,
    ensures
        value.len() > 0 && !line.begins_blank() ==> apt_rpm::show_next_spec(state, line).package
            == apt_rpm::keyed_spec(state.package, key, value),
        value.len() == 0 || line.begins_blank() ==> apt_rpm::show_next_spec(state, line) == state,
        value.len() > 0 && !line.begins_blank() ==> {
            let next = apt_rpm::show_next_spec(state, line);
            !next.done && next.started == (state.started || key == "Package"@)
        },
        apt_rpm::show_next_spec(
            apt_rpm::ShowScanView { done: true, ..state },
            line,
        ).package == state.package,
        apt_rpm::show_next_spec(apt_rpm::ShowScanView { started: true, ..state }, seq![]).done,
{
    assert(Seq::<char>::empty().trim() =~= seq![]);
}

/// What is installed at the offered version is up to date; at another one it
/// can be upgraded to the offered one; what is not installed is to be had.
pub proof fn installed_versions_are_compared(package: PackageView, version: Seq<char>)
    ensures
        apt_rpm::merge_spec(package, None) == package,
        package.version == Some(version) ==> apt_rpm::merge_spec(package, Some(version)) == (
        PackageView { state: InstallState::Installed, ..package }),
        package.version != Some(version) ==> apt_rpm::merge_spec(package, Some(version)) == (
        PackageView {
            version: Some(version),
            latest_version: package.version,
            state: InstallState::Upgradable,
            ..package
        }),
{
}

/// A package is described, then the installed version of the same name is asked
/// for, and the two are compared.
pub proof fn descriptions_are_compared(
    manager: apt_rpm::Manager,
    name: Seq<char>,
    package: PackageView,
    replies: Seq<ReplyView>,
)
    ensures
        replies.len() == 0 ==> manager.info_spec(name, replies) == session::ask::<PackageView>(
            CmdView::query(manager.cache_program@).arg("show"@).arg(name),
        ),
        replies.len() > 0 && (
            !replies[0].success || apt_rpm::parse_show_spec(replies[0].stdout) is None
        )
            ==> manager.info_spec(name, replies) == StepView::<PackageView>::Fail(
            ErrorView::NotFound(name),
        ),
        replies.len() == 1 && replies[0].success && apt_rpm::parse_show_spec(replies[0].stdout)
            == Some(package) ==> manager.info_spec(name, replies) == session::ask::<PackageView>(
            CmdView::query(manager.rpm_program@).arg("-q"@).arg("--queryformat"@).arg(
                "%{VERSION}-%{RELEASE}\\n"@,
            ).arg(package.name),
        ),
        replies.len() == 2 && replies[0].success && apt_rpm::parse_show_spec(replies[0].stdout)
            == Some(package) && !replies[1].success ==> manager.info_spec(name, replies)
            == StepView::Done(package),
        replies.len() == 2 && replies[0].success && apt_rpm::parse_show_spec(replies[0].stdout)
            == Some(package) && replies[1].success ==> ({
            let lines = replies[1].stdout.lines();
            &&& lines.len() == 0 ==> manager.info_spec(name, replies) == StepView::Done(package)
            &&& lines.len() > 0 && lines[0].trim().len() > 0 ==> manager.info_spec(name, replies)
                == StepView::Done(apt_rpm::merge_spec(package, Some(lines[0].trim())))
        }),
{
}

/// A description with a name is a package; one without is none.
pub proof fn descriptions_are_named(name: Seq<char>, version: Seq<char>)
    requires
        form::is_phrase(name),
        form::is_phrase(version),
    ensures
        apt_rpm::parse_show_spec(
            form::above(
                form::field("Package"@, name),
                form::above(form::field("Version"@, version), ""@),
            ),
        ) == Some(
            PackageView {
                name,
                version: Some(version),
                state: InstallState::Available,
                ..PackageView::blank()
            },
        ),
        apt_rpm::parse_show_spec(""@) is None,
{
    reveal_strlit("Package");
    reveal_strlit("Version");
    assert("Package"@.len() == 7);
    assert("Version"@.len() == 7);
    assert("Package"@[0] == 'P');
    assert("Version"@[0] == 'V');
    form::a_field_is_cut("Package"@, name);
    form::a_field_is_cut("Version"@, version);
    let start = apt_rpm::ShowScanView::start();
    let f = |state: apt_rpm::ShowScanView, line: Seq<char>| apt_rpm::show_next_spec(state, line);
    let first = form::field("Package"@, name);
    let second = form::field("Version"@, version);
    form::a_line_is_scanned(start, first, form::above(second, ""@), f);
    form::a_line_is_scanned(f(start, first), second, ""@, f);
    form::nothing_is_read();
}

/// An output of a single line is what that line says, and an empty one says
/// nothing.
pub proof fn single_lines_are_read(line: Seq<char>)
    requires
        form::is_line(line),
    ensures
        ({
            let start = apt_rpm::ShowScanView {
                package: PackageView { state: InstallState::Available, ..PackageView::blank() },
                started: false,
                done: false,
            };
            let end = apt_rpm::show_next_spec(start, line);
            apt_rpm::parse_show_spec(
                form::above(line, ""@),
            ) == if end.package.name.len() == 0 { None } else { Some(end.package) }
        }),
        ({
            let end = apt_rpm::ShowScanView {
                package: PackageView { state: InstallState::Available, ..PackageView::blank() },
                started: false,
                done: false,
            };
            apt_rpm::parse_show_spec(""@) == if end.package.name.len() == 0 { None } else {
                Some(end.package)
            }
        }),
{
    let start = apt_rpm::ShowScanView {
        package: PackageView { state: InstallState::Available, ..PackageView::blank() },
        started: false,
        done: false,
    };
    form::a_line_is_scanned(
        start,
        line,
        ""@,
        |state: apt_rpm::ShowScanView, line: Seq<char>| apt_rpm::show_next_spec(state, line),
    );
    form::nothing_is_read();
}

/// A row that names no single word is no package.
pub proof fn other_rows_say_nothing(line: Seq<char>, more: Seq<char>)
    requires
        form::is_line(line),
        line.cut(" - "@) is None || (
            line.cut(" - "@)->0
        ).0.trim().len() == 0 || (line.cut(" - "@)->0).0.trim().has_blank(),
    ensures
        apt_rpm::parse_search_spec(form::above(line, more)) == apt_rpm::parse_search_spec(more),
{
    form::a_row_is_read(line, more, |line: Seq<char>| apt_rpm::search_row_spec(line));
    form::nothing_is_read();
}

/// A line that does not begin with `Inst` is no update.
pub proof fn other_lines_are_no_updates(line: Seq<char>, more: Seq<char>)
    requires
        form::is_line(line),
        !line.begins("Inst "@),
    ensures
        apt_rpm::parse_outdated_spec(
            form::above(line, more),
        ) == apt_rpm::parse_outdated_spec(more),
{
    form::a_row_is_read(line, more, |line: Seq<char>| apt_rpm::outdated_row_spec(line));
    form::nothing_is_read();
}

/// A row without a name is no package.
pub proof fn nameless_rows_say_nothing(line: Seq<char>, more: Seq<char>)
    requires
        form::is_line(line),
        line.split("\t"@)[0].len() == 0,
    ensures
        apt_rpm::parse_rpm_list_spec(
            form::above(line, more),
        ) == apt_rpm::parse_rpm_list_spec(more),
{
    form::a_row_is_read(line, more, |line: Seq<char>| apt_rpm::rpm_row_spec(line));
    form::nothing_is_read();
}

} // verus!

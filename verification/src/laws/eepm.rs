//! What `epm` says.

use vstd::prelude::*;

use crate::backends::eepm;
use crate::command::CmdView;
use crate::error::ErrorView;
use crate::form;
use crate::package::{InstallState, PackageView};
use crate::rows;
use crate::session::{self, ReplyView, StepView};
use crate::text::{self, Text};

verus! {

/// A row `name-version-release` is an installed package.
pub proof fn installed_rows_are_read(
    line: Seq<char>,
    more: Seq<char>,
    name: Seq<char>,
    version: Seq<char>,
    release: Seq<char>,
)
    requires
        form::is_line(line),
        !eepm::is_noise_spec(line),
        line.words().len() > 0,
        line.words()[0] == name + "-"@ + version + "-"@ + release,
        !version.contains('-') && !release.contains('-'),
        version.begins_digit(),
    ensures
        eepm::parse_qa_spec(form::above(line, more)) == seq![
            PackageView {
                name,
                version: Some(version + "-"@ + release),
                state: InstallState::Installed,
                ..PackageView::blank()
            },
        ] + eepm::parse_qa_spec(more),
        eepm::parse_qa_spec(""@) == Seq::<PackageView>::empty(),
{
    reveal_strlit("-");
    let token = line.words()[0];
    let tail = version + "-"@ + release;
    let a = name.len() as int;
    let b = a + 1 + version.len();
    assert(token =~= name + "-"@ + tail);
    text::lemma_find_last(token, '-');
    let last = text::find_last(token, '-');
    assert(token[b] == '-');
    if last > b {
        assert(token[last] == release[last - b - 1]);
        assert(release.contains(release[last - b - 1]));
    }
    assert(last == b);
    let front = token.take(b);
    text::lemma_find_last(front, '-');
    let at = text::find_last(front, '-');
    assert(front[a] == '-');
    if at > a {
        assert(front[at] == version[at - a - 1]);
        assert(version.contains(version[at - a - 1]));
    }
    assert(at == a);
    assert(token.skip(a + 1) =~= tail);
    assert(tail[0] == version[0]);
    assert(token.take(a) =~= name);
    form::a_row_is_read(line, more, |line: Seq<char>| eepm::qa_row_spec(line));
    form::nothing_is_read();
}

/// A row `name - description` is a package to be had.
pub proof fn search_rows_are_read(
    line: Seq<char>,
    more: Seq<char>,
    name: Seq<char>,
    description: Seq<char>,
)
    requires
        form::is_line(line),
        !eepm::is_noise_spec(line),
        text::is_word(name),
        line.cut(" - "@) matches Some((n, d)) && n == name && d.trim() == description,
    ensures
        eepm::parse_search_spec(form::above(line, more)) == seq![
            PackageView {
                name,
                description: Some(description),
                state: InstallState::Available,
                ..PackageView::blank()
            },
        ] + eepm::parse_search_spec(more),
        eepm::parse_search_spec(""@) == Seq::<PackageView>::empty(),
{
    form::a_word_is_a_phrase(name);
    form::a_row_is_read(line, more, |line: Seq<char>| eepm::search_row_spec(line));
    form::nothing_is_read();
}

/// A row of one word is a package that can be upgraded.
pub proof fn outdated_rows_are_read(line: Seq<char>, more: Seq<char>)
    requires
        form::is_line(line),
        text::is_word(line),
        !eepm::is_noise_spec(line),
    ensures
        eepm::parse_upgradable_spec(form::above(line, more)) == seq![
            PackageView { name: line, state: InstallState::Upgradable, ..PackageView::blank() },
        ] + eepm::parse_upgradable_spec(more),
        eepm::parse_upgradable_spec(""@) == Seq::<PackageView>::empty(),
{
    form::a_word_is_a_phrase(line);
    form::a_row_is_read(line, more, |line: Seq<char>| eepm::upgradable_row_spec(line));
    form::nothing_is_read();
}

/// Commands, comments and indented lines say nothing.
pub proof fn noise_is_passed_over(line: Seq<char>)
    ensures
        line.begins("$"@) || line.begins("#"@) || line.begins_blank()
            || line.len() == 0 <==> eepm::is_noise_spec(line),
{

}

/// Each field of a description goes where it belongs; the first name and the
/// first description count.
pub proof fn fields_go_where_they_belong(package: PackageView, value: Seq<char>)
    ensures
        package.name.len() == 0
            ==> eepm::keyed_spec(package, "Name"@, value) == (
                PackageView { name: value, ..package }
            ),
        package.name.len() == 0
            ==> eepm::keyed_spec(package, "Package"@, value) == (
                PackageView { name: value, ..package }
            ),
        package.name.len() > 0 ==> eepm::keyed_spec(package, "Name"@, value) == package,
        package.description is None
            ==> eepm::keyed_spec(package, "Summary"@, value) == (
                PackageView { description: Some(value), ..package }
            ),
        package.description is None
            ==> eepm::keyed_spec(package, "Description"@, value) == (
                PackageView { description: Some(value), ..package }
            ),
        package.description is Some
            ==> eepm::keyed_spec(package, "Description"@, value) == package,
        eepm::keyed_spec(package, "URL"@, value) == (
            PackageView { homepage: Some(value), ..package }
        ),
        eepm::keyed_spec(package, "Homepage"@, value) == (
            PackageView { homepage: Some(value), ..package }
        ),
        eepm::keyed_spec(package, "License"@, value) == (
            PackageView { license: Some(value), ..package }
        ),
        eepm::keyed_spec(package, "Architecture"@, value) == (
            PackageView { architecture: Some(value), ..package }
        ),
        eepm::keyed_spec(package, "Group"@, value) == (
            PackageView { origin: Some(value), ..package }
        ),
        eepm::keyed_spec(package, "Section"@, value) == (
            PackageView { origin: Some(value), ..package }
        ),
{
    reveal_strlit("Name");
    reveal_strlit("Package");
    reveal_strlit("Summary");
    reveal_strlit("Description");
    reveal_strlit("URL");
    reveal_strlit("Homepage");
    reveal_strlit("License");
    reveal_strlit("Architecture");
    reveal_strlit("Group");
    reveal_strlit("Section");
    assert("Name"@.len() == 4);
    assert("Package"@.len() == 7);
    assert("Summary"@.len() == 7);
    assert("Description"@.len() == 11);
    assert("URL"@.len() == 3);
    assert("Homepage"@.len() == 8);
    assert("License"@.len() == 7);
    assert("Architecture"@.len() == 12);
    assert("Group"@.len() == 5);
    assert("Section"@.len() == 7);
    assert("Package"@[0] == 'P');
    assert("Summary"@[0] == 'S');
    assert("License"@[0] == 'L');
    assert("Section"@[0] == 'S');
    assert("Summary"@[1] == 'u');
    assert("Section"@[1] == 'e');
}

/// A field on a line of its own is taken in; a line that is indented, or that
/// has no value, is not.
pub proof fn fields_are_taken_in(
    state: eepm::InfoScanView,
    line: Seq<char>,
    key: Seq<char>,
    value: Seq<char>,
)
    requires
        line.cut(":"@) matches Some((k, v)) && k.trim() == key && v.trim() == value,
        key != "Version"@ && key != "Release"@,
    ensures
        value.len() > 0 && !eepm::is_noise_spec(line) ==> eepm::info_next_spec(state, line) == (eepm::InfoScanView {
            package: eepm::keyed_spec(state.package, key, value),
            ..state
        }),
        value.len() == 0 || eepm::is_noise_spec(line)
            ==> eepm::info_next_spec(state, line) == state,
{
}

/// The version of a description is written with its release.
pub proof fn versions_have_releases(
    state: eepm::InfoScanView,
    line: Seq<char>,
    value: Seq<char>,
    version: Seq<char>,
    release: Seq<char>,
)
    requires
        value.len() > 0,
        !eepm::is_noise_spec(line),
    ensures
        (line.cut(":"@) matches Some((k, v)) && k.trim() == "Version"@ && v.trim() == value)
            ==> eepm::info_next_spec(state, line) == (
                eepm::InfoScanView { version: Some(value), ..state }
            ),
        (line.cut(":"@) matches Some((k, v)) && k.trim() == "Release"@ && v.trim() == value)
            ==> eepm::info_next_spec(state, line) == (
                eepm::InfoScanView { release: Some(value), ..state }
            ),
        eepm::full_version_spec(Some(version), Some(release)) == Some(version + "-"@ + release),
        eepm::full_version_spec(Some(version), None) == Some(version),
        eepm::full_version_spec(None, Some(release)) is None,
{
    reveal_strlit("Version");
    reveal_strlit("Release");
    assert("Version"@.len() == 7);
    assert("Release"@.len() == 7);
    assert("Version"@[0] == 'V');
    assert("Release"@[0] == 'R');
}

/// What is installed at another version than the one to be had keeps its
/// version, and the one to be had is the latest.
pub proof fn installed_versions_are_compared(package: PackageView, local: PackageView)
    ensures
        eepm::merge_spec(package, None) == package,
        local.version is Some && local.version != package.version
            ==> eepm::merge_spec(package, Some(local)) == (
                PackageView {
                    version: local.version,
                    latest_version: package.version,
                    state: InstallState::Installed,
                    ..package
                }
            ),
        local.version == package.version
            ==> eepm::merge_spec(package, Some(local)) == (
                PackageView { state: InstallState::Installed, ..package }
            ),
{

}

/// A package is described, then looked for among what is installed.
pub proof fn descriptions_are_merged(
    manager: eepm::Manager,
    name: Seq<char>,
    package: PackageView,
    replies: Seq<ReplyView>,
)
    ensures
        ({
            let step = manager.info_spec(name, replies);
            &&& replies.len() == 0 ==> step == session::ask::<PackageView>(
                CmdView::query(manager.program@).arg("info"@).arg(name),
            )
            &&& replies.len() > 0 && (!replies[0].success || eepm::parse_info_spec(
                replies[0].stdout,
            ) is None) ==> step == StepView::<PackageView>::Fail(ErrorView::NotFound(name))
            &&& replies.len() > 0 && replies[0].success && eepm::parse_info_spec(
                replies[0].stdout,
            )
                == Some(package) ==> step == if replies.len() == 1 {
                session::ask(CmdView::query(manager.program@).arg("qa"@).arg(package.name))
            } else if replies[1].success {
                StepView::Done(
                    eepm::merge_spec(
                        package,
                        session::called(eepm::parse_qa_spec(replies[1].stdout), package.name),
                    ),
                )
            } else {
                StepView::Done(package)
            }
        }),
{
}

/// An output of a single line is what that line says, and an empty one says
/// nothing.
pub proof fn single_lines_are_read(line: Seq<char>)
    requires
        form::is_line(line),
    ensures
        ({
            let start = eepm::InfoScanView {
                package: PackageView { state: InstallState::Available, ..PackageView::blank() },
                version: None,
                release: None,
            };
            let end = eepm::info_next_spec(start, line);
            eepm::parse_info_spec(
                form::above(line, ""@),
            ) == if end.package.name.len() == 0 { None } else {
                Some(
                    PackageView {
                        version: eepm::full_version_spec(end.version, end.release),
                        ..end.package
                    },
                )
            }
        }),
        ({
            let end = eepm::InfoScanView {
                package: PackageView { state: InstallState::Available, ..PackageView::blank() },
                version: None,
                release: None,
            };
            eepm::parse_info_spec(""@) == if end.package.name.len() == 0 { None } else {
                Some(
                    PackageView {
                        version: eepm::full_version_spec(end.version, end.release),
                        ..end.package
                    },
                )
            }
        }),
{
    let start = eepm::InfoScanView {
        package: PackageView { state: InstallState::Available, ..PackageView::blank() },
        version: None,
        release: None,
    };
    form::a_line_is_scanned(
        start,
        line,
        ""@,
        |state: eepm::InfoScanView, line: Seq<char>| eepm::info_next_spec(state, line),
    );
    form::nothing_is_read();
}

/// What is installed at an unknown version is installed.
pub proof fn unknown_versions_are_installed(package: PackageView, local: PackageView)
    requires
        local.version is None,
    ensures
        eepm::merge_spec(package, Some(local)) == (
            PackageView { state: InstallState::Installed, ..package }
        ),
{
}

/// Noise, and rows that name no single word, are no packages.
pub proof fn other_rows_say_nothing(line: Seq<char>)
    ensures
        eepm::is_noise_spec(line)
            ==> eepm::qa_row_spec(line) is None && eepm::search_row_spec(line) is None
                && eepm::upgradable_row_spec(line) is None,
        line.trim().has_blank() ==> eepm::upgradable_row_spec(line) is None,
        line.cut(" - "@) is None || (
            line.cut(" - "@)->0
        ).0.trim().len() == 0 || (line.cut(" - "@)->0).0.trim().has_blank()
            ==> eepm::search_row_spec(line) is None,
{

}

/// What was gathered from all lines is the package that is described.
pub proof fn descriptions_are_gathered(
    stdout: Seq<char>,
    end: eepm::InfoScanView,
)
    requires
        end == rows::scan(
            eepm::InfoScanView {
                package: PackageView { state: InstallState::Available, ..PackageView::blank() },
                version: None,
                release: None,
            },
            stdout.lines(),
            |state: eepm::InfoScanView, line: Seq<char>| eepm::info_next_spec(state, line),
        ),
    ensures
        end.package.name.len() == 0 ==> eepm::parse_info_spec(stdout) is None,
        end.package.name.len() > 0 ==> eepm::parse_info_spec(stdout) == Some(
            PackageView {
                version: if end.version is Some && end.release is Some {
                    Some(end.version->0 + "-"@ + end.release->0)
                } else {
                    end.version
                },
                ..end.package
            },
        ),
{
}

/// A token without two hyphens, or without a digit behind the first of the last
/// two, is a name alone.
pub proof fn other_tokens_are_names(name: Seq<char>, version: Seq<char>, release: Seq<char>)
    requires
        !name.contains('-') && !version.contains('-') && !release.contains('-'),
        !version.begins_digit() && version.len() > 0,
    ensures
        eepm::split_nvr_spec(name) == (name, None::<Seq<char>>),
        eepm::split_nvr_spec(name + "-"@ + release) == (
            name + "-"@ + release,
            None::<Seq<char>>,
        ),
        eepm::split_nvr_spec(name + "-"@ + version + "-"@ + release) == (
            name + "-"@ + version + "-"@ + release,
            None::<Seq<char>>,
        ),
{
    reveal_strlit("-");
    text::lemma_find_last(name, '-');
    if text::find_last(name, '-') >= 0 {
        assert(name.contains(name[text::find_last(name, '-')]));
    }
    let two = name + "-"@ + release;
    let a = name.len() as int;
    text::lemma_find_last(two, '-');
    let last = text::find_last(two, '-');
    assert(two[a] == '-');
    if last > a {
        assert(two[last] == release[last - a - 1]);
        assert(release.contains(release[last - a - 1]));
    }
    assert(two.take(a) =~= name);
    let three = name + "-"@ + version + "-"@ + release;
    let b = a + 1 + version.len();
    text::lemma_find_last(three, '-');
    let end = text::find_last(three, '-');
    assert(three[b] == '-');
    if end > b {
        assert(three[end] == release[end - b - 1]);
        assert(release.contains(release[end - b - 1]));
    }
    assert(end == b);
    let front = three.take(b);
    text::lemma_find_last(front, '-');
    let at = text::find_last(front, '-');
    assert(front[a] == '-');
    if at > a {
        assert(front[at] == version[at - a - 1]);
        assert(version.contains(version[at - a - 1]));
    }
    assert(at == a);
    assert(three.skip(a + 1)[0] == version[0]);
}

} // verus!

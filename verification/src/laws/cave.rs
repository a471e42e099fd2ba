//! What `cave` says.

use vstd::prelude::*;

use crate::backends::cave;
use crate::command::CmdView;
use crate::error::ErrorView;
use crate::form;
use crate::package::{InstallState, PackageView};
use crate::request::RequestView;
use crate::rows;
use crate::session::{self, ActionView, ReplyView, StepView};
use crate::text::{self, Text};
use crate::version;

verus! {

/// A pinned package is written `=name-version`.
pub proof fn exact_versions_are_written(request: RequestView, version: Seq<char>)
    ensures
        request.version == Some(version)
            ==> cave::exact_spec(request) == "="@ + request.name + "-"@ + version,
        request.version is None ==> cave::exact_spec(request) == request.name,
{

}

/// A row `category/name version` is an installed package.
pub proof fn printed_ids_are_read(
    line: Seq<char>,
    more: Seq<char>,
    name: Seq<char>,
    version: Seq<char>,
)
    requires
        form::is_line(line),
        line.words() == seq![name, version],
        name.has("/"@),
    ensures
        cave::parse_print_ids_spec(form::above(line, more)) == seq![
            PackageView {
                name,
                version: Some(version),
                state: InstallState::Installed,
                ..PackageView::blank()
            },
        ] + cave::parse_print_ids_spec(more),
        cave::parse_print_ids_spec(""@) == Seq::<PackageView>::empty(),
{
    form::a_row_is_read(line, more, |line: Seq<char>| cave::print_ids_row_spec(line));
    form::nothing_is_read();
}

/// An id `category/name-version:slot::repository` gives name, version and
/// repository.
pub proof fn ids_are_read(
    token: Seq<char>,
    left: Seq<char>,
    repository: Seq<char>,
    category: Seq<char>,
    pf: Seq<char>,
    name: Seq<char>,
    version: Option<Seq<char>>,
)
    requires
        !category.contains('/'),
        left.split(":"@)[0] == category + "/"@ + pf,
        version::split_last(pf) == (name, version),
    ensures
        token.cut("::"@) == Some((left, repository))
            ==> cave::parse_id_spec(token) == Some(
                (category + "/"@ + name, version, Some(repository)),
            ),
        token.cut("::"@) is None && token == left
            ==> cave::parse_id_spec(token) == Some(
                (category + "/"@ + name, version, None::<Seq<char>>),
            ),
{
    reveal_strlit("/");
    form::a_cut_is_found(category, "/"@, pf);
}

/// A row `category/name:slot old -> new` or `category/name-new replacing old` is
/// a package at the old version that could be at the new one.
pub proof fn resolutions_give_both_versions(
    line: Seq<char>,
    id: Seq<char>,
    old_version: Seq<char>,
    new_version: Seq<char>,
    name: Seq<char>,
    repository: Option<Seq<char>>,
)
    requires
        id.has("/"@) && id != "->"@ && id != "replacing"@,
        old_version.begins_digit() && new_version.begins_digit(),
        old_version != "->"@ && old_version != "replacing"@,
        old_version.trim_back(","@) == old_version,
    ensures
        line.words() == seq![id, old_version, "->"@, new_version] && cave::parse_id_spec(id) == Some(
            (name, None::<Seq<char>>, repository),
        ) ==> cave::resolution_row_spec(line) == Some(
            PackageView {
                name,
                version: Some(old_version),
                latest_version: Some(new_version),
                state: InstallState::Upgradable,
                ..PackageView::blank()
            },
        ),
        line.words() == seq![id, "replacing"@, old_version] && cave::parse_id_spec(id) == Some(
            (name, Some(new_version), repository),
        ) ==> cave::resolution_row_spec(line) == Some(
            PackageView {
                name,
                version: Some(old_version),
                latest_version: Some(new_version),
                state: InstallState::Upgradable,
                ..PackageView::blank()
            },
        ),
{
    reveal_strlit("->");
    reveal_strlit("replacing");
    assert("->"@.len() == 2);
    assert("replacing"@.len() == 9);
    let words = line.words();
    let f = |w: Seq<char>| w.has("/"@);
    let g = |w: Seq<char>| w == "->"@;
    let h = |w: Seq<char>| w == "replacing"@;
    reveal_with_fuel(rows::index, 5);
    if words.len() > 0 && words[0] == id {
        assert(rows::index(words, f) == 0);
    }
    if words == seq![id, old_version, "->"@, new_version] {
        assert(words.skip(1)[0] == old_version);
        assert(words.skip(1).skip(1)[0] == "->"@);
        assert(rows::index(words.skip(1).skip(1), g) == 0);
        assert(rows::index(words.skip(1), g) == 1);
        assert(rows::index(words, g) == 2);
    }
    if words == seq![id, "replacing"@, old_version] {
        assert(words.skip(1)[0] == "replacing"@);
        assert(words.skip(1).skip(1)[0] == old_version);
        assert(words.skip(1).skip(1).skip(1) =~= seq![]);
        assert(rows::index(words.skip(1).skip(1), g) == -1);
        assert(rows::index(words.skip(1), g) == -1);
        assert(rows::index(words, g) == -1);
        assert(rows::index(words.skip(1), h) == 0);
        assert(rows::index(words, h) == 1);
    }
}

/// What is installed at the available version is up to date; at another one it
/// can be upgraded to it; what is not installed is to be had.
pub proof fn versions_are_compared(
    package: PackageView,
    installed: Option<Seq<char>>,
    available: Option<Seq<char>>,
)
    ensures
        installed is None ==> cave::settled_spec(package, installed, available) == (PackageView {
            version: available,
            state: InstallState::Available,
            ..package
        }),
        installed is Some && (available is None || available == installed) ==> cave::settled_spec(
            package,
            installed,
            available,
        ) == (PackageView { version: installed, state: InstallState::Installed, ..package }),
        installed is Some && available is Some && available != installed ==> cave::settled_spec(
            package,
            installed,
            available,
        ) == (PackageView {
            version: installed,
            latest_version: available,
            state: InstallState::Upgradable,
            ..package
        }),
{
}

/// What is installed at another version than the one to be had can be upgraded
/// to it.
pub proof fn installed_versions_are_compared(package: PackageView, local: PackageView)
    requires
        local.name == package.name,
    ensures
        cave::merge_installed_spec(package, seq![]) == package,
        local.version is Some && local.version != package.version ==> cave::merge_installed_spec(
            package,
            seq![local],
        ) == (PackageView {
            version: local.version,
            latest_version: package.version,
            state: InstallState::Upgradable,
            ..package
        }),
        local.version == package.version ==> cave::merge_installed_spec(package, seq![local]) == (
        PackageView { state: InstallState::Installed, ..package }),
{
}

/// A header opens the next result, and an indented line belongs to it.
pub proof fn results_are_read(
    state: cave::SearchScanView,
    line: Seq<char>,
    name: Seq<char>,
    block: cave::BlockView,
)
    ensures
        ({
            let next = cave::search_next_spec(state, line);
            &&& !line.begins_blank() && cave::header_word_spec(line) == Some(name)
                && name.has("/"@)
                ==> next == (cave::SearchScanView {
                packages: state.finish(),
                current: Some(
                    cave::BlockView {
                        package: PackageView { name, ..PackageView::blank() },
                        installed: None,
                        available: None,
                    },
                ),
            })
            &&& line.begins_blank() && state.current == Some(block) ==> next
                == (cave::SearchScanView {
                current: Some(cave::block_line_spec(block, line)),
                ..state
            })
        }),
        state.current == Some(block) ==> state.finish() == state.packages.push(block.close()),
        state.current is None ==> state.finish() == state.packages,
{
}

/// A line of a repository gives the version there: the installed one, or the one
/// to be had and where from. The first other line describes the package.
pub proof fn repositories_are_read(
    block: cave::BlockView,
    line: Seq<char>,
    rest: Seq<char>,
    repository: Seq<char>,
    version: Seq<char>,
)
    requires
        version.begins_digit() && version.trim_back("*"@) == version,
    ensures
        line.trim() == "::"@ + rest && rest.words() == seq![repository, version] && repository.has(
            "installed"@,
        ) ==> cave::block_line_spec(block, line) == (cave::BlockView {
            installed: Some(version),
            ..block
        }),
        line.trim() == "::"@ + rest && rest.words() == seq![repository, version] && !repository.has(
            "installed"@,
        ) ==> cave::block_line_spec(block, line) == (cave::BlockView {
            package: PackageView {
                origin: if block.package.origin is None {
                    Some(repository)
                } else {
                    block.package.origin
                },
                ..block.package
            },
            available: Some(version),
            ..block
        }),
        !line.trim().begins("::"@) && line.trim().len() > 0 && block.package.description is None
            ==> cave::block_line_spec(block, line) == (cave::BlockView {
            package: PackageView {
                description: Some(line.trim().trim_front("\""@).trim_back("\""@)),
                ..block.package
            },
            ..block
        }),
        !line.trim().begins("::"@) && block.package.description is Some ==> cave::block_line_spec(
            block,
            line,
        ) == block,
{
    form::a_prefix_is_found("::"@, rest);
    let words = seq![repository, version];
    assert(words.skip(1) =~= seq![version]);
    rows::first_is_at(seq![version], |w: Seq<char>| w.begins_digit(), 0);
}

/// A package is described; where the description says nothing of what is
/// installed, that is asked for and compared.
pub proof fn descriptions_are_compared(
    manager: cave::Manager,
    name: Seq<char>,
    package: PackageView,
    replies: Seq<ReplyView>,
)
    ensures
        ({
            let step = manager.info_spec(name, replies);
            &&& replies.len() == 0 ==> step == session::ask::<PackageView>(
                CmdView::query(manager.program@).arg("show"@).arg(name),
            )
            &&& replies.len() > 0 && !replies[0].success ==> step == StepView::<PackageView>::Fail(
                ErrorView::NotFound(name),
            )
            &&& replies.len() > 0 && replies[0].success && cave::parse_show_spec(
                replies[0].stdout,
            )
                == Some(package) ==> ({
                &&& package.state == InstallState::Installed || package.state
                    == InstallState::Upgradable ==> step == StepView::Done(package)
                &&& package.state == InstallState::Available && replies.len() == 1 ==> (step matches
                    StepView::Act(ActionView::Query(command)) && command.args[0] == "print-ids"@)
                &&& package.state == InstallState::Available && replies.len() == 2
                    && replies[1].success ==> step == StepView::Done(
                    cave::merge_installed_spec(
                        package,
                        cave::parse_print_ids_spec(replies[1].stdout),
                    ),
                )
            })
        }),
{
}

/// Each id of a description gives the version of its repository; the first one
/// names the package.
pub proof fn described_ids_are_read(
    block: cave::BlockView,
    line: Seq<char>,
    token: Seq<char>,
    name: Seq<char>,
    version: Seq<char>,
    repository: Seq<char>,
)
    requires
        cave::header_word_spec(line) == Some(token),
        cave::parse_id_spec(token) == Some((name, Some(version), Some(repository))),
        block.package.name.len() == 0 || block.package.name == name,
    ensures
        repository.has("installed"@) ==> cave::show_header_spec(block, line) == (cave::BlockView {
            package: PackageView { name, ..block.package },
            installed: Some(version),
            ..block
        }),
        !repository.has("installed"@) && block.package.origin is None ==> cave::show_header_spec(
            block,
            line,
        ) == (cave::BlockView {
            package: PackageView { name, origin: Some(repository), ..block.package },
            available: Some(version),
            ..block
        }),
{
}

/// Each field of a description goes where it belongs.
pub proof fn fields_go_where_they_belong(
    package: PackageView,
    line: Seq<char>,
    key: Seq<char>,
    value: Seq<char>,
)
    requires
        line.trim().cut("  "@) matches Some((k, v)) && k.trim() == key && v.trim() == value,
        value.len() > 0,
    ensures
        key == "Summary"@
            ==> cave::show_field_spec(package, line) == (
                PackageView { description: Some(value), ..package }
            ),
        key == "Description"@
            ==> cave::show_field_spec(package, line) == (
                PackageView {
                    description: if package.description is None { Some(value) } else {
                        package.description
                    },
                    ..package
                }
            ),
        key == "Homepage"@ || key == "Homepages"@
            ==> cave::show_field_spec(package, line) == (
                PackageView { homepage: Some(value), ..package }
            ),
        key == "Licences"@ || key == "Licenses"@ || key == "License"@
            ==> cave::show_field_spec(package, line) == (
                PackageView { license: Some(value), ..package }
            ),
{
    reveal_strlit("Summary");
    reveal_strlit("Description");
    reveal_strlit("Homepage");
    reveal_strlit("Homepages");
    reveal_strlit("Licences");
    reveal_strlit("Licenses");
    reveal_strlit("License");
    assert("Summary"@.len() == 7);
    assert("Description"@.len() == 11);
    assert("Homepage"@.len() == 8);
    assert("Homepages"@.len() == 9);
    assert("Licences"@.len() == 8);
    assert("Licenses"@.len() == 8);
    assert("License"@.len() == 7);
    assert("Summary"@[0] == 'S');
    assert("License"@[0] == 'L');
    assert("Homepage"@[0] == 'H');
    assert("Licences"@[0] == 'L');
    assert("Licenses"@[0] == 'L');
    assert("Licences"@[5] == 'c');
    assert("Licenses"@[5] == 's');
}

/// An output of a single line is what that line says, and an empty one says
/// nothing.
pub proof fn single_lines_are_read(line: Seq<char>)
    requires
        form::is_line(line),
    ensures
        ({
            let start = cave::SearchScanView { packages: seq![], current: None };
            let end = cave::search_next_spec(start, line);
            cave::parse_search_spec(form::above(line, ""@)) == end.finish()
        }),
        ({
            let end = cave::SearchScanView { packages: seq![], current: None };
            cave::parse_search_spec(""@) == end.finish()
        }),
{
    let start = cave::SearchScanView { packages: seq![], current: None };
    form::a_line_is_scanned(
        start,
        line,
        ""@,
        |state: cave::SearchScanView, line: Seq<char>| cave::search_next_spec(state, line),
    );
    form::nothing_is_read();
}

/// An output of a single line is what that line says, and an empty one says
/// nothing.
pub proof fn single_ids_are_read(line: Seq<char>)
    requires
        form::is_line(line),
    ensures
        ({
            let start = cave::BlockView {
                package: PackageView::blank(),
                installed: None,
                available: None,
            };
            let end = cave::show_next_spec(start, line);
            cave::parse_show_spec(
                form::above(line, ""@),
            ) == if end.close().name.len() > 0 { Some(end.close()) } else { None }
        }),
        ({
            let end = cave::BlockView {
                package: PackageView::blank(),
                installed: None,
                available: None,
            };
            cave::parse_show_spec(""@) == if end.close().name.len() > 0 {
                Some(end.close())
            } else { None }
        }),
{
    let start = cave::BlockView {
        package: PackageView::blank(),
        installed: None,
        available: None,
    };
    form::a_line_is_scanned(
        start,
        line,
        ""@,
        |state: cave::BlockView, line: Seq<char>| cave::show_next_spec(state, line),
    );
    form::nothing_is_read();
}

/// A row without an id is no package.
pub proof fn other_rows_say_nothing(line: Seq<char>, more: Seq<char>)
    requires
        form::is_line(line),
        line.words().len() == 0 || !line.words()[0].has("/"@),
    ensures
        cave::parse_print_ids_spec(form::above(line, more)) == cave::parse_print_ids_spec(more),
{
    form::a_row_is_read(line, more, |line: Seq<char>| cave::print_ids_row_spec(line));
    form::nothing_is_read();
}

/// A line that is not indented is an id of the description, and an indented one
/// a field.
pub proof fn descriptions_are_indented(block: cave::BlockView, line: Seq<char>)
    ensures
        !line.begins_blank() ==> cave::show_next_spec(block, line) == cave::show_header_spec(
            block,
            line,
        ),
        line.begins_blank() ==> cave::show_next_spec(block, line) == (cave::BlockView {
            package: cave::show_field_spec(block.package, line),
            ..block
        }),
        block.close() == cave::settled_spec(block.package, block.installed, block.available),
{
}

/// Ids of other packages are passed over.
pub proof fn other_packages_are_passed_over(
    block: cave::BlockView,
    line: Seq<char>,
    token: Seq<char>,
    name: Seq<char>,
    version: Option<Seq<char>>,
    repository: Option<Seq<char>>,
)
    requires
        cave::header_word_spec(line) == Some(token),
        cave::parse_id_spec(token) == Some((name, version, repository)),
        block.package.name.len() > 0 && block.package.name != name,
    ensures
        cave::show_header_spec(block, line) == block,
{
}

/// A header is the first word behind the marks.
pub proof fn headers_are_marked(name: Seq<char>, rest: Seq<char>)
    requires
        text::is_word(name) && name[0] != '*',
    ensures
        cave::header_word_spec("* "@ + name) == Some(name),
        cave::header_word_spec(name) == Some(name),
{
    reveal_strlit("* ");
    reveal_strlit("*");
    reveal_strlit(" ");
    let line = "* "@ + name;
    let set = "*"@;
    text::lemma_find_set(line, set, false);
    text::lemma_find_set(name, set, false);
    assert(set[0] == '*');
    assert(set.contains('*'));
    assert(line[0] == '*' && line[1] == ' ');
    assert(!set.contains(' '));
    assert(!set.contains(name[0]));
    let at = text::find_set(line, set, false) as int;
    assert(set.contains(line[0]));
    assert(!set.contains(line[1]));
    assert(at == 1);
    assert(line.skip(1) =~= " "@ + name);
    form::a_word_is_a_phrase(name);
    form::a_space_is_trimmed(name);
    assert(text::find_set(name, set, false) == 0);
    assert(name.skip(0) =~= name);
}

/// What is installed at an unknown version is installed.
pub proof fn unknown_versions_are_installed(package: PackageView, local: PackageView)
    requires
        local.version is None && local.name == package.name,
    ensures
        cave::merge_installed_spec(package, seq![local]) == (
            PackageView { state: InstallState::Installed, ..package }
        ),
{
}

/// Each row of a resolution is read in its place.
pub proof fn resolutions_are_read_in_order(line: Seq<char>, more: Seq<char>, package: PackageView)
    requires
        form::is_line(line),
    ensures
        cave::resolution_row_spec(line) == Some(package)
            ==> cave::parse_resolution_spec(
                form::above(line, more),
            ) == seq![package] + cave::parse_resolution_spec(more),
        cave::resolution_row_spec(line) is None
            ==> cave::parse_resolution_spec(
                form::above(line, more),
            ) == cave::parse_resolution_spec(more),
        cave::parse_resolution_spec(""@).len() == 0,
{
    form::a_row_is_read(line, more, |line: Seq<char>| cave::resolution_row_spec(line));
    form::nothing_is_read();
}

} // verus!

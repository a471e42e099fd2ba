//! What `composer` says.

use vstd::prelude::*;

use crate::backends::composer;
use crate::command::CmdView;
use crate::data::{self, DataView};
use crate::error::ErrorView;
use crate::form;
use crate::package::{InstallState, PackageView};
use crate::rows;
use crate::session::{self, ReplyView, StepView};
use crate::text::{self, Text};

verus! {

/// An entry with a newer version can be upgraded to it, and one without is
/// installed.
pub proof fn installed_entries_are_read(
    json: DataView,
    front: Seq<DataView>,
    entry: DataView,
    name: Seq<char>,
)
    requires
        json.get("installed"@).items() == Some(front.push(entry)),
        entry.get("name"@).text() == Some(name),
    ensures
        composer::parse_show_json_spec(json) == rows::select(
            front,
            |entry: DataView| composer::show_entry_spec(entry),
        ).push(
            PackageView {
                name,
                version: entry.get("version"@).text(),
                latest_version: entry.get("latest"@).text(),
                description: entry.get("description"@).text(),
                state: if entry.get("latest"@).text() is Some {
                    InstallState::Upgradable
                } else { InstallState::Installed },
                ..PackageView::blank()
            },
        ),
{
    assert(front.push(entry).drop_last() =~= front);
}

/// A row `vendor/name description` is a package to be had.
pub proof fn search_rows_are_read(
    line: Seq<char>,
    more: Seq<char>,
    name: Seq<char>,
    description: Seq<char>,
)
    requires
        form::is_line(line),
        text::is_word(name) && name.has("/"@),
        form::is_phrase(description),
        line == name + " "@ + description,
    ensures
        composer::parse_search_spec(form::above(line, more)) == seq![
            PackageView {
                name,
                description: Some(description),
                state: InstallState::Available,
                ..PackageView::blank()
            },
        ] + composer::parse_search_spec(more),
        composer::parse_search_spec(""@) == Seq::<PackageView>::empty(),
{
    reveal_strlit(" ");
    let tail = " "@ + description;
    assert(line =~= name + tail);
    assert(text::is_blank(' '));
    text::lemma_blank_behind(name, tail);
    assert(line.take(name.len() as int) =~= name);
    assert(line.skip(name.len() as int + 1) =~= description);
    form::a_phrase_is_a_line(description);
    form::a_row_is_read(line, more, |line: Seq<char>| composer::search_row_spec(line));
    form::nothing_is_read();
}

/// Each field of a description goes where it belongs.
pub proof fn fields_go_where_they_belong(package: PackageView, value: Seq<char>)
    requires
        value.len() > 0,
    ensures
        composer::set_field_spec(package, "name"@, value) == (
            PackageView { name: value, ..package }
        ),
        composer::set_field_spec(package, "descrip."@, value) == (
            PackageView { description: Some(value), ..package }
        ),
        composer::set_field_spec(package, "homepage"@, value) == (
            PackageView { homepage: Some(value), ..package }
        ),
        composer::set_field_spec(package, "license"@, value) == (
            PackageView { license: Some(value), ..package }
        ),
        composer::set_field_spec(package, "versions"@, value) == (
            PackageView { version: composer::pick_version_spec(value), ..package }
        ),
{
    reveal_strlit("name");
    reveal_strlit("descrip.");
    reveal_strlit("homepage");
    reveal_strlit("license");
    reveal_strlit("versions");
    assert("name"@.len() == 4);
    assert("descrip."@.len() == 8);
    assert("homepage"@.len() == 8);
    assert("license"@.len() == 7);
    assert("versions"@.len() == 8);
    assert("descrip."@[0] == 'd');
    assert("homepage"@[0] == 'h');
    assert("versions"@[0] == 'v');
}

/// The first version that is not a development one is picked; where all are,
/// the first one.
pub proof fn released_versions_come_first(list: Seq<char>, i: int)
    requires
        0 <= i < composer::version_entries_spec(list).len(),
    ensures
        ({
            let entries = composer::version_entries_spec(list);
            &&& composer::pick_version_spec(list) is Some
            &&& !entries[i].has("dev"@) && (
                forall|j: int| 0 <= j < i ==> (#[trigger] entries[j]).has("dev"@)
            ) ==> composer::pick_version_spec(list) == Some(entries[i])
            &&& (
                forall|j: int| 0 <= j < entries.len() ==> (#[trigger] entries[j]).has("dev"@)
            ) ==> composer::pick_version_spec(list) == Some(entries[0])
        }),
{
    let entries = composer::version_entries_spec(list);
    let f = |entry: Seq<char>| !entry.has("dev"@);
    rows::first_has(entries, f);
    if !entries[i].has("dev"@) && (forall|j: int|
        0 <= j < i ==> (#[trigger] entries[j]).has("dev"@)) {
        rows::first_is_at(entries, f, i);
    }
}

/// The names below `requires` are the dependencies; a field ends them.
pub proof fn dependencies_are_gathered(
    state: composer::ShowScanView,
    line: Seq<char>,
    dependencies: Seq<Seq<char>>,
)
    requires
        line.trim().len() > 0,
        line.trim() != "requires"@,
    ensures
        ({
            let next = composer::show_next_spec(state, line);
            &&& composer::show_field_spec(line) matches Some((key, value)) ==> !next.in_requires
                && next.package == composer::set_field_spec(state.package, key, value)
            &&& composer::show_field_spec(line) is None && state.in_requires
                && line.trim().words().len() > 0 && line.trim().words()[0].has("/"@)
                && state.package.dependencies == Some(dependencies) ==> next.in_requires
                && next.package == (PackageView {
                dependencies: Some(dependencies.push(line.trim().words()[0])),
                ..state.package
            })
            &&& composer::show_field_spec(line) is None && !state.in_requires ==> next.package
                == state.package && !next.in_requires
        }),
{
}

/// What is installed at another version than the one to be had keeps its
/// version, and the one to be had is the latest.
pub proof fn installed_versions_are_compared(package: PackageView, local: PackageView)
    requires
        local.name == package.name,
    ensures
        composer::merge_installed_spec(package, seq![]) == package,
        local.version is Some && local.version != package.version
            ==> composer::merge_installed_spec(package, seq![local]) == (
                PackageView {
                    version: local.version,
                    latest_version: package.version,
                    state: InstallState::Installed,
                    ..package
                }
            ),
        local.version == package.version
            ==> composer::merge_installed_spec(package, seq![local]) == (
                PackageView { state: InstallState::Installed, ..package }
            ),
{

}

/// An output of a single line is what that line says, and an empty one says
/// nothing.
pub proof fn single_lines_are_read(line: Seq<char>)
    requires
        form::is_line(line),
    ensures
        ({
            let start = composer::ShowScanView {
                package: PackageView { state: InstallState::Available, ..PackageView::blank() },
                in_requires: false,
            };
            let end = composer::show_next_spec(start, line);
            composer::parse_show_text_spec(
                form::above(line, ""@),
            ) == if end.package.name.len() > 0 { Some(end.package) } else { None }
        }),
        ({
            let end = composer::ShowScanView {
                package: PackageView { state: InstallState::Available, ..PackageView::blank() },
                in_requires: false,
            };
            composer::parse_show_text_spec(""@) == if end.package.name.len() > 0 {
                Some(end.package)
            } else { None }
        }),
{
    let start = composer::ShowScanView {
        package: PackageView { state: InstallState::Available, ..PackageView::blank() },
        in_requires: false,
    };
    form::a_line_is_scanned(
        start,
        line,
        ""@,
        |state: composer::ShowScanView, line: Seq<char>| composer::show_next_spec(state, line),
    );
    form::nothing_is_read();
}

/// What is installed at an unknown version is installed.
pub proof fn unknown_versions_are_installed(package: PackageView, local: PackageView)
    requires
        local.version is None && local.name == package.name,
    ensures
        composer::merge_installed_spec(package, seq![local]) == (
            PackageView { state: InstallState::Installed, ..package }
        ),
{
}

/// A row that begins with no vendor is no package.
pub proof fn other_rows_say_nothing(line: Seq<char>)
    ensures
        !line.take(text::find_blank(line, true) as int).has("/"@)
            ==> composer::search_row_spec(line)
            is None,
{
}

/// Output that is not JSON is empty where the command succeeded or there is no
/// project, and else a failure.
pub proof fn replies_are_understood(json: DataView, detail: Seq<char>, reply: ReplyView)
    ensures
        composer::read_show_spec(Ok(json), reply) == Ok::<_, ErrorView>(
            composer::parse_show_json_spec(json),
        ),
        reply.success || reply.stderr.has("composer.json"@) ==> composer::read_show_spec(
            Err(detail),
            reply,
        ) == Ok::<_, ErrorView>(Seq::<PackageView>::empty()),
        !reply.success && !reply.stderr.has("composer.json"@) ==> composer::read_show_spec(
            Err(detail),
            reply,
        ) == Err::<Seq<PackageView>, _>(reply.failure()),
{
}

/// What is installed is listed, with the newer versions where they are wanted.
pub proof fn listings_are_asked_for(
    manager: composer::Manager,
    outdated: bool,
    packages: Seq<PackageView>,
    replies: Seq<ReplyView>,
)
    ensures
        replies.len() == 0 ==> manager.show_step_spec(outdated, replies) == session::ask::<
            Seq<PackageView>,
        >(
            CmdView::new(manager.program@).arg("global"@).arg("show"@).arg("--format=json"@).flag(
                outdated,
                "--outdated"@,
            ),
        ),
        replies.len() > 0 && composer::read_show_spec(
            data::json_text(replies[0].stdout),
            replies[0],
        )
            == Ok::<_, ErrorView>(packages) ==> manager.show_step_spec(outdated, replies)
            == StepView::Done(packages),
{
}

/// A package is described, then looked for among what is installed.
pub proof fn descriptions_are_compared(
    manager: composer::Manager,
    name: Seq<char>,
    package: PackageView,
    installed: Seq<PackageView>,
    replies: Seq<ReplyView>,
)
    ensures
        ({
            let step = manager.info_spec(name, replies);
            &&& replies.len() == 0 ==> step == session::ask::<PackageView>(
                CmdView::query(
                    manager.program@,
                ).arg("global"@).arg("show"@).arg("--all"@).arg(name),
            )
            &&& replies.len() > 0 && (!replies[0].success || composer::parse_show_text_spec(
                replies[0].stdout,
            ) is None) ==> step == StepView::<PackageView>::Fail(ErrorView::NotFound(name))
            &&& replies.len() > 0 && replies[0].success && composer::parse_show_text_spec(
                replies[0].stdout,
            ) == Some(package) ==> ({
                &&& replies.len() == 1 ==> step == session::ask::<PackageView>(
                    CmdView::new(manager.program@).arg("global"@).arg("show"@).arg(
                        "--format=json"@,
                    ),
                )
                &&& replies.len() == 2 && composer::read_show_spec(
                    data::json_text(replies[1].stdout),
                    replies[1],
                ) == Ok::<_, ErrorView>(installed) ==> step == StepView::Done(
                    composer::merge_installed_spec(package, installed),
                )
            })
        }),
{
}

/// A key is a single word before a colon.
pub proof fn keys_are_words(line: Seq<char>, key: Seq<char>, value: Seq<char>)
    requires
        line.cut(":"@) == Some((key, value)),
    ensures
        key.trim().len() > 0 && !key.trim().has(" "@) ==> composer::show_field_spec(line) == Some(
            (key.trim(), value.trim()),
        ),
        key.trim().len() == 0 || key.trim().has(" "@) ==> composer::show_field_spec(line) is None,
{
}

/// A dependency is a package of a vendor, or part of the platform.
pub proof fn dependencies_have_names(token: Seq<char>)
    ensures
        token.has("/"@) ==> composer::is_dependency_name_spec(token),
        composer::is_dependency_name_spec("php"@),
        token.begins("php-"@) || token.begins("ext-"@) || token.begins("lib-"@) || token.begins(
            "composer-"@,
        ) ==> composer::is_dependency_name_spec(token),
        !token.has("/"@) && token != "php"@ && !token.begins("php-"@) && !token.begins("ext-"@)
            && !token.begins("lib-"@) && !token.begins("composer-"@)
            ==> !composer::is_dependency_name_spec(token),
{
}

/// Below `requires` the dependencies begin.
pub proof fn dependencies_begin(state: composer::ShowScanView, line: Seq<char>)
    requires
        line.trim() == "requires"@,
    ensures
        composer::show_next_spec(state, line).in_requires,
        state.package.dependencies is None ==> composer::show_next_spec(state, line).package == (
        PackageView { dependencies: Some(seq![]), ..state.package }),
        state.package.dependencies is Some ==> composer::show_next_spec(state, line).package
            == state.package,
{
    reveal_strlit("requires");
    assert("requires"@.len() == 8);
}

/// Versions are listed with commas between them, the current one with a star.
pub proof fn versions_are_listed(first: Seq<char>, rest: Seq<char>, version: Seq<char>)
    requires
        !first.contains(','),
        first.trim().trim_front("*"@).trim_start() == version,
        version.len() > 0,
    ensures
        composer::version_entries_spec(first + ","@ + rest) == seq![version]
            + composer::version_entries_spec(rest),
        composer::version_entries_spec(first) == seq![version],
{
    reveal_strlit(",");
    let f = |entry: Seq<char>| entry.trim().trim_front("*"@).trim_start().filled();
    form::a_piece_is_split_off(first, ","@, rest);
    reveal_with_fuel(rows::select, 2);
    let one = seq![first];
    assert(one.drop_last() =~= seq![] && one.last() == first);
    assert(rows::select(one, f) =~= seq![version]);
    rows::lemma_select_adds_up(one, rest.split(","@), f);
}

} // verus!

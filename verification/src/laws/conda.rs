//! What `conda` says.

use vstd::prelude::*;

use crate::backends::conda;
use crate::command::CmdView;
use crate::data::{self, DataView};
use crate::error::ErrorView;
use crate::package::{InstallState, PackageView};
use crate::rows;
use crate::session::{self, ReplyView, StepView};
use crate::text::Text;

verus! {

/// An entry of the list is an installed package.
pub proof fn listed_entries_are_read(
    json: DataView,
    front: Seq<DataView>,
    entry: DataView,
    name: Seq<char>,
)
    requires
        json.items() == Some(front.push(entry)),
        entry.get("name"@).text() == Some(name),
    ensures
        conda::parse_list_spec(json) == rows::select(
            front,
            |entry: DataView| conda::list_entry_spec(entry),
        ).push(
            PackageView {
                name,
                version: entry.get("version"@).text(),
                origin: entry.get("channel"@).text(),
                architecture: entry.get("platform"@).text(),
                state: InstallState::Installed,
                ..PackageView::blank()
            },
        ),
{
    assert(front.push(entry).drop_last() =~= front);
}

/// An entry of a search is a package to be had, described by its last build.
pub proof fn found_entries_are_read(
    json: DataView,
    front: Seq<(Seq<char>, DataView)>,
    entry: (Seq<char>, DataView),
    builds: Seq<DataView>,
)
    requires
        json.entries() == Some(front.push(entry)),
        entry.1.items() == Some(builds),
        builds.len() > 0,
    ensures
        conda::parse_search_spec(json) == rows::select(
            front,
            |entry: (Seq<char>, DataView)| conda::search_entry_spec(entry),
        ).push(
            PackageView {
                name: entry.0,
                version: builds.last().get("version"@).text(),
                architecture: builds.last().get("subdir"@).text(),
                origin: builds.last().get("channel"@).text(),
                download_size: builds.last().get("size"@).count(),
                dependencies: conda::dependencies_spec(builds.last().get("depends"@)),
                license: match builds.last().get("license"@).text() {
                    Some(license) => license.filled(),
                    None => None,
                },
                state: InstallState::Available,
                ..PackageView::blank()
            },
        ),
{
    assert(front.push(entry).drop_last() =~= front);
}

/// What is linked at another version than it was unlinked at goes from the one
/// to the other; what stays, or is new, is not outdated.
pub proof fn linked_packages_give_both_versions(
    entry: DataView,
    taken: Seq<(Seq<char>, Seq<char>)>,
    name: Seq<char>,
    current: Seq<char>,
    latest: Seq<char>,
)
    requires
        entry.get("name"@).text() == Some(name),
        entry.get("version"@).text() == Some(latest),
    ensures
        taken == seq![(name, current)] && current != latest
            ==> conda::linked_spec(entry, taken) == Some(
                PackageView {
                    name,
                    version: Some(current),
                    latest_version: Some(latest),
                    origin: entry.get("channel"@).text(),
                    state: InstallState::Upgradable,
                    ..PackageView::blank()
                },
            ),
        taken == seq![(name, current)] && current == latest
            ==> conda::linked_spec(entry, taken) is None,
        (
            forall|i: int| 0 <= i < taken.len() ==> (#[trigger] taken[i]).0 != name
        ) ==> conda::linked_spec(entry, taken) is None,
{
    let f = |pair: (Seq<char>, Seq<char>)| pair.0 == name;
    rows::first_is_at(seq![(name, current)], f, 0);
    if forall|i: int| 0 <= i < taken.len() ==> (#[trigger] taken[i]).0 != name {
        lemma_not_taken(taken, name);
    }
}

proof fn lemma_not_taken(taken: Seq<(Seq<char>, Seq<char>)>, name: Seq<char>)
    requires
        forall|i: int| 0 <= i < taken.len() ==> (#[trigger] taken[i]).0 != name,
    ensures
        conda::taken_spec(taken, name) is None,
    decreases taken.len(),
{
    if taken.len() > 0 {
        assert(taken[0].0 != name);
        assert forall|i: int| 0 <= i < taken.len() - 1 implies (#[trigger] taken.skip(1)[i]).0
            != name by {
            assert(taken.skip(1)[i] == taken[i + 1]);
        }
        lemma_not_taken(taken.skip(1), name);
    }
}

/// What a plan unlinks and links again at another version is outdated.
pub proof fn plans_are_read(
    json: DataView,
    unlinked: DataView,
    linked: DataView,
    name: Seq<char>,
    current: Seq<char>,
    latest: Seq<char>,
)
    requires
        json.get("actions"@).get("UNLINK"@).items() == Some(seq![unlinked]),
        json.get("actions"@).get("LINK"@).items() == Some(seq![linked]),
        unlinked.get("name"@).text() == Some(name) && linked.get("name"@).text() == Some(name),
        unlinked.get("version"@).text() == Some(current),
        linked.get("version"@).text() == Some(latest),
    ensures
        conda::parse_outdated_spec(json) == if current == latest { seq![] } else {
            seq![
                PackageView {
                    name,
                    version: Some(current),
                    latest_version: Some(latest),
                    origin: linked.get("channel"@).text(),
                    state: InstallState::Upgradable,
                    ..PackageView::blank()
                },
            ]
        },
{
    reveal_with_fuel(rows::select, 2);
    assert(seq![unlinked].drop_last() =~= seq![] && seq![unlinked].last() == unlinked);
    assert(seq![linked].drop_last() =~= seq![] && seq![linked].last() == linked);
    let taken = rows::select(seq![unlinked], |entry: DataView| conda::unlinked_spec(entry));
    assert(taken =~= seq![(name, current)]);
    linked_packages_give_both_versions(linked, taken, name, current, latest);
    let all = conda::parse_outdated_spec(json);
    if current == latest {
        assert(all =~= seq![]);
    } else {
        assert(all =~= seq![conda::linked_spec(linked, taken)->0]);
    }
}

/// What is installed at another version than the one to be had keeps its
/// version, and the one to be had is the latest.
pub proof fn installed_versions_are_compared(package: PackageView, local: PackageView)
    requires
        local.name == package.name,
    ensures
        conda::merge_installed_spec(package, seq![]) == package,
        local.version is Some && local.version != package.version ==> conda::merge_installed_spec(
            package,
            seq![local],
        ) == (PackageView {
            version: local.version,
            latest_version: package.version,
            state: InstallState::Installed,
            ..package
        }),
        local.version == package.version ==> conda::merge_installed_spec(package, seq![local]) == (
        PackageView { state: InstallState::Installed, ..package }),
{
}

/// The channels are asked first and what is installed next.
pub proof fn descriptions_are_compared(
    manager: conda::Manager,
    name: Seq<char>,
    packages: Seq<PackageView>,
    package: PackageView,
    installed: Seq<PackageView>,
    replies: Seq<ReplyView>,
)
    requires
        session::called(packages, name) == Some(package),
    ensures
        ({
            let step = manager.info_spec(name, replies);
            &&& replies.len() == 0 ==> step == session::ask::<PackageView>(
                CmdView::new(manager.program@).arg("search"@).arg(name).arg("--json"@),
            )
            &&& replies.len() > 0 && conda::read_channels_spec(
                data::json_text(replies[0].stdout),
                replies[0],
            ) == Ok::<_, ErrorView>(packages) ==> ({
                &&& replies.len() == 1 ==> step == session::ask::<PackageView>(
                    CmdView::new(manager.program@).arg("list"@).arg("-n"@).arg("base"@).arg(
                        "--json"@,
                    ),
                )
                &&& replies.len() == 2 && conda::read_installed_spec(replies[1]) == Ok::<
                    _,
                    ErrorView,
                >(installed) ==> step == StepView::Done(
                    conda::merge_installed_spec(package, installed),
                )
            })
        }),
{
}

/// What a reply means: where nothing was found there is nothing, and a failed
/// command fails.
pub proof fn replies_are_understood(json: DataView, reply: ReplyView)
    ensures
        json.get("exception_name"@).text() == Some("PackagesNotFoundError"@)
            ==> conda::read_channels_spec(Ok(json), reply) == Ok::<_, ErrorView>(
            Seq::<PackageView>::empty(),
        ),
        json.get("exception_name"@).text() is None && !reply.success ==> conda::read_channels_spec(
            Ok(json),
            reply,
        ) == Err::<Seq<PackageView>, _>(reply.failure()),
        json.get("exception_name"@).text() is None && reply.success ==> conda::read_channels_spec(
            Ok(json),
            reply,
        ) == Ok::<_, ErrorView>(conda::parse_search_spec(json)),
        conda::read_plan_spec(Ok(json), reply) == Ok::<_, ErrorView>(
            conda::parse_outdated_spec(json),
        ),
        !reply.success ==> conda::read_installed_spec(reply) == Err::<Seq<PackageView>, _>(
            reply.failure(),
        ),
        reply.success && data::json_text(reply.stdout) == Ok::<_, Seq<char>>(json)
            ==> conda::read_installed_spec(reply) == Ok::<_, ErrorView>(
            conda::parse_list_spec(json),
        ),
{
}

/// What is installed at an unknown version is installed.
pub proof fn unknown_versions_are_installed(package: PackageView, local: PackageView)
    requires
        local.version is None && local.name == package.name,
    ensures
        conda::merge_installed_spec(package, seq![local]) == (
            PackageView { state: InstallState::Installed, ..package }
        ),
{
}

/// Output that is not JSON is refused with the reason, and a failed plan fails.
pub proof fn output_has_to_be_json(
    what: Seq<char>,
    stdout: Seq<char>,
    detail: Seq<char>,
    reply: ReplyView,
)
    ensures
        data::json_text(stdout) == Err::<DataView, _>(detail)
            ==> conda::parse_json_spec(what, stdout)
            == Err::<DataView, _>(ErrorView::Parse { what: "conda "@ + what, detail }),
        !reply.success ==> conda::read_plan_spec(Err(detail), reply) == Err::<Seq<PackageView>, _>(
            reply.failure(),
        ) && conda::read_channels_spec(Err(detail), reply) == Err::<Seq<PackageView>, _>(
            reply.failure(),
        ),
        reply.success ==> conda::read_plan_spec(Err(detail), reply) == Ok::<_, ErrorView>(
            Seq::<PackageView>::empty(),
        ) && conda::read_channels_spec(Err(detail), reply) == Ok::<_, ErrorView>(
            Seq::<PackageView>::empty(),
        ),
        reply.success && data::json_text(reply.stdout) == Err::<DataView, _>(detail)
            ==> conda::read_installed_spec(reply) == Err::<Seq<PackageView>, _>(
            ErrorView::Parse { what: "conda list output"@, detail },
        ),
{
    if reply.success && data::json_text(reply.stdout) == Err::<DataView, _>(detail) {
        reveal_strlit("conda ");
        reveal_strlit("list output");
        reveal_strlit("conda list output");
        assert("conda "@ + "list output"@ =~= "conda list output"@);
    }
}

/// A dependency is the first word of its entry.
pub proof fn dependencies_are_named(dep: Seq<char>, deps: Seq<DataView>)
    requires
        dep.words().len() > 0,
    ensures
        conda::dependency_spec(DataView::Text(dep)) == Some(dep.words()[0]),
        conda::dependencies_spec(DataView::List(deps.push(DataView::Text(dep)))) == Some(
            conda::dependencies_spec(DataView::List(deps))->0.push(dep.words()[0]),
        ),
        conda::dependencies_spec(DataView::Other) is None,
{
    assert(deps.push(DataView::Text(dep)).drop_last() =~= deps);
}

} // verus!

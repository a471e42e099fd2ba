//! What the tree of programs says.

use vstd::prelude::*;

use crate::backends::gobo;
use crate::form;
use crate::package::{InstallState, PackageView};
use crate::path;
use crate::rows;
use crate::session::{self, ActionView, PartView, ReplyView, StepView};
use crate::text::Text;

verus! {

/// A dependency is the first word of a line; a comment and an empty line are
/// none.
pub proof fn dependencies_are_read(line: Seq<char>)
    ensures
        line.trim().len() == 0 || line.trim().begins("#"@)
            ==> gobo::dependency_spec(line) is None,
        line.trim().len() > 0 && !line.trim().begins("#"@) && line.trim().words().len() > 0
            ==> gobo::dependency_spec(line) == Some(line.trim().words()[0]),
{

}

/// The current version is the installed one; where the link says nothing, the
/// highest is. Directories that hold no version do not count.
pub proof fn programs_have_a_version(
    name: Seq<char>,
    directories: Seq<Seq<char>>,
    link: ReplyView,
    current: Seq<char>,
)
    ensures
        link.success && path::file_name_spec(link.stdout) == Some(current) && directories.contains(
            current,
        ) && gobo::is_version_spec(current) ==> gobo::program_spec(name, directories, link) == Some(
            PackageView {
                name,
                version: Some(current),
                state: InstallState::Installed,
                ..PackageView::blank()
            },
        ),
        gobo::program_spec(name, directories, link) matches Some(package) ==> package.name == name
            && package.state == InstallState::Installed && (package.version matches Some(version)
            && directories.contains(version) && version != "Settings"@ && version != "Variable"@
            && version != "Current"@),
        gobo::program_spec(name, directories, link) is None <==> forall|i: int|
            0 <= i < directories.len() ==> !gobo::is_version_spec(#[trigger] directories[i]),
{
    let f = |name: Seq<char>| gobo::is_version_spec(name);
    let versions = rows::keep(directories, f);
    rows::kept_are_exactly(directories, f);
    rows::the_only_one_kept(directories, f);
    assert(versions.contains(current) <==> directories.contains(current) && f(current));
    let link_name = if link.success {
        path::file_name_spec(link.stdout)
    } else {
        None
    };
    gobo::the_highest_version_is_picked(versions, link_name);
    match gobo::pick_version_spec(versions, link_name) {
        Some(version) => {
            assert(versions.contains(version));
        },
        None => {},
    }
    if forall|i: int| 0 <= i < directories.len() ==> !gobo::is_version_spec(
        #[trigger] directories[i],
    ) {
        assert forall|i: int| 0 <= i < directories.len() implies !f(#[trigger] directories[i]) by {}
        assert(versions.len() == 0);
    } else {
        let i = choose|i: int|
            0 <= i < directories.len() && gobo::is_version_spec(#[trigger] directories[i]);
        assert(f(directories[i]));
    }
}

/// The tree is listed, then each program is looked at: its directories, then
/// its link.
pub proof fn programs_are_looked_at_in_turn(
    manager: gobo::Manager,
    known: Seq<PackageView>,
    names: Seq<Seq<char>>,
    replies: Seq<ReplyView>,
)
    requires
        names.len() > 0,
    ensures
        ({
            let path = path::join_spec(manager.programs_root@, names[0]);
            let step = manager.look_at_spec(known, names, replies);
            &&& replies.len() == 0 ==> step == PartView::<Seq<PackageView>>::Act(
                ActionView::Directories { path, links: false, lenient: true },
            )
            &&& replies.len() == 1 && replies[0].success ==> step == PartView::<
                Seq<PackageView>,
            >::Act(ActionView::ReadLink(path::join_spec(path, "Current"@)))
            &&& replies.len() > 0 && !replies[0].success ==> step == manager.look_at_spec(
                known,
                names.skip(1),
                replies.skip(1),
            )
            &&& replies.len() > 1 && replies[0].success ==> step == manager.look_at_spec(
                match gobo::program_spec(names[0], replies[0].entries, replies[1]) {
                    Some(package) => known.push(package),
                    None => known,
                },
                names.skip(1),
                replies.skip(2),
            )
        }),
        manager.tree_spec(seq![]) == PartView::<Seq<PackageView>>::Act(
            ActionView::Directories { path: manager.programs_root@, links: true, lenient: true },
        ),
        replies.len() > 0 && replies[0].success ==> manager.tree_spec(replies)
            == manager.look_at_spec(seq![], replies[0].entries, replies.skip(1)),
{
    if replies.len() > 0 && !replies[0].success {
        assert(known + Seq::<PackageView>::empty() =~= known);
    }
    if replies.len() > 1 && replies[0].success {
        assert(replies.skip(1).skip(1) =~= replies.skip(2));
        match gobo::program_spec(names[0], replies[0].entries, replies[1]) {
            Some(package) => {
                let none = Seq::<PackageView>::empty();
                assert(known + none.push(package) =~= known.push(package));
            },
            None => {
                assert(known + Seq::<PackageView>::empty() =~= known);
            },
        }
    }
}

/// A program that was found is described by the files among its resources.
pub proof fn resources_describe_programs(
    manager: gobo::Manager,
    name: Seq<char>,
    version: Seq<char>,
    package: PackageView,
    packages: Seq<PackageView>,
    replies: Seq<ReplyView>,
    rest: Seq<ReplyView>,
)
    requires
        manager.tree_spec(replies) == PartView::Got(packages, rest),
        session::called(packages, name) == Some(package),
        package.version == Some(version),
    ensures
        ({
            let step = manager.info_spec(name, replies);
            let resources = path::join_spec(
                path::join_spec(path::join_spec(manager.programs_root@, package.name), version),
                "Resources"@,
            );
            &&& rest.len() == 0 ==> step == StepView::<PackageView>::Act(
                ActionView::ReadFile(path::join_spec(resources, "Description"@)),
            )
            &&& rest.len() == 1 ==> step == StepView::<PackageView>::Act(
                ActionView::ReadFile(path::join_spec(resources, "Dependencies"@)),
            )
            &&& rest.len() == 2 ==> step == StepView::Done(
                PackageView {
                    description: if rest[0].success {
                        gobo::parse_description_spec(rest[0].stdout)
                    } else {
                        None
                    },
                    dependencies: if rest[1].success {
                        gobo::parse_dependencies_spec(rest[1].stdout)
                    } else {
                        None
                    },
                    ..package
                },
            )
        }),
{
}

/// Each line may be a dependency, in its place; a text without any has none.
pub proof fn dependencies_are_listed(line: Seq<char>, dependency: Seq<char>)
    requires
        form::is_line(line),
    ensures
        gobo::dependency_spec(line) == Some(dependency) ==> gobo::parse_dependencies_spec(
            form::above(line, ""@),
        ) == Some(seq![dependency]),
        gobo::dependency_spec(line) is None
            ==> gobo::parse_dependencies_spec(form::above(line, ""@))
            is None,
        gobo::parse_dependencies_spec(""@) is None,
{
    let f = |line: Seq<char>| gobo::dependency_spec(line);
    form::a_row_is_read(line, ""@, f);
    form::nothing_is_read();
    assert(rows::select(""@.lines(), f) =~= seq![]);
    assert(seq![dependency] + Seq::<Seq<char>>::empty() =~= seq![dependency]);
}

} // verus!

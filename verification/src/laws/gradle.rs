//! What the tree of dependencies says.

use vstd::prelude::*;

use crate::backends::gradle;
use crate::form;
use crate::package::{InstallState, PackageView};
use crate::rows;
use crate::text::{Pieces, Text};

verus! {

/// A coordinate `group:module:version` is that module at that version, or at
/// the one it was resolved to; a version that is only described is unknown.
pub proof fn coordinates_are_read(
    group: Seq<char>,
    module: Seq<char>,
    version: Seq<char>,
    coordinate: Seq<char>,
    resolved: Seq<char>,
)
    requires
        coordinate.split(":"@) == seq![group, module, version],
        group.len() > 0 && module.len() > 0,
        version.len() > 0 && !version.begins("{"@) && !version.begins("("@),
        resolved.len() > 0 && !resolved.has(":"@) && !resolved.begins("{"@)
            && !resolved.begins("("@),
    ensures
        gradle::split_coordinate_spec(coordinate, None) == Some(
            (group + ":"@ + module, Some(version)),
        ),
        gradle::split_coordinate_spec(coordinate, Some(resolved)) == Some(
            (group + ":"@ + module, Some(resolved)),
        ),
{

}

/// A module that was replaced by another one is that other one.
pub proof fn replaced_modules_are_read(
    coordinate: Seq<char>,
    resolved: Seq<char>,
    group: Seq<char>,
    module: Seq<char>,
    version: Seq<char>,
)
    requires
        resolved.has(":"@),
        resolved.split(":"@) == seq![group, module, version],
        group.len() > 0 && module.len() > 0,
        version.len() > 0 && !version.begins("{"@) && !version.begins("("@),
    ensures
        gradle::split_coordinate_spec(coordinate, Some(resolved)) == Some(
            (group + ":"@ + module, Some(version)),
        ),
{

}

/// A branch of the tree is a dependency, at the version behind the arrow where
/// there is one; projects are none.
pub proof fn branches_are_read(
    line: Seq<char>,
    head: Seq<char>,
    entry: Seq<char>,
    first: Seq<char>,
    other: Seq<char>,
    name: Seq<char>,
    version: Option<Seq<char>>,
)
    requires
        line.cut("--- "@) == Some((head, entry)),
    ensures
        entry.begins("project "@) ==> gradle::tree_row_spec(line) is None,
        !entry.begins("project "@) && entry.words() == seq![first] && first != "->"@
            && gradle::split_coordinate_spec(first, None) == Some((name, version))
            ==> gradle::tree_row_spec(line) == Some(
            PackageView { name, version, state: InstallState::Installed, ..PackageView::blank() },
        ),
        !entry.begins("project "@) && entry.words() == seq![first, "->"@, other] && first != "->"@
            && gradle::split_coordinate_spec(first, Some(other)) == Some((name, version))
            ==> gradle::tree_row_spec(line) == Some(
            PackageView { name, version, state: InstallState::Installed, ..PackageView::blank() },
        ),
{
    let f = |token: Seq<char>| token == "->"@;
    reveal_with_fuel(rows::index, 4);
    if entry.words() == seq![first] && first != "->"@ {
        assert(entry.words().skip(1) =~= seq![]);
        assert(rows::index(entry.words(), f) == -1);
    }
    if entry.words() == seq![first, "->"@, other] && first != "->"@ {
        let tokens = entry.words();
        assert(tokens.skip(1)[0] == "->"@);
        assert(rows::index(tokens, f) == 1);
        assert(tokens.skip(2) =~= seq![other]);
    }
}

/// A dependency is found by its whole name or by that of its module.
pub proof fn dependencies_are_found_by_either_name(
    packages: Seq<PackageView>,
    name: Seq<char>,
    i: int,
)
    requires
        0 <= i < packages.len(),
    ensures
        packages[i].name == name || packages[i].name.split(":"@).nth(1) == Some(name)
            ==> gradle::known_as_spec(packages, name) is Some,
        gradle::known_as_spec(packages, name) matches Some(p) ==> packages.contains(p) && (p.name
            == name || p.name.split(":"@).nth(1) == Some(name)),
{
    rows::first_has(
        packages,
        |p: PackageView| p.name == name || p.name.split(":"@).nth(1) == Some(name),
    );
}

/// A dependency is listed once, where it is first seen.
pub proof fn dependencies_are_joined(packages: Seq<PackageView>, package: PackageView)
    ensures
        packages.contains(package) ==> gradle::joined_spec(packages, Some(package)) == packages,
        !packages.contains(package) ==> gradle::joined_spec(packages, Some(package))
            == packages.push(package),
        gradle::joined_spec(packages, None) == packages,
{
}

/// An output of a single line is what that line says, and an empty one says
/// nothing.
pub proof fn single_lines_are_read(line: Seq<char>)
    requires
        form::is_line(line),
    ensures
        ({
            let start = gradle::TreeScanView { packages: seq![] };
            let end = gradle::tree_next_spec(start, line);
            gradle::parse_dependency_tree_spec(form::above(line, ""@)) == end.packages
        }),
        ({
            let end = gradle::TreeScanView { packages: seq![] };
            gradle::parse_dependency_tree_spec(""@) == end.packages
        }),
{
    let start = gradle::TreeScanView { packages: seq![] };
    form::a_line_is_scanned(
        start,
        line,
        ""@,
        |state: gradle::TreeScanView, line: Seq<char>| gradle::tree_next_spec(state, line),
    );
    form::nothing_is_read();
}

/// Each branch is joined to what was seen before it.
pub proof fn branches_are_joined(
    state: gradle::TreeScanView,
    line: Seq<char>,
    package: PackageView,
)
    ensures
        gradle::tree_row_spec(line) == Some(package) && !state.packages.contains(package)
            ==> gradle::tree_next_spec(state, line).packages == state.packages.push(package),
        gradle::tree_row_spec(line) == Some(package) && state.packages.contains(package)
            ==> gradle::tree_next_spec(state, line).packages == state.packages,
        gradle::tree_row_spec(line) is None ==> gradle::tree_next_spec(state, line).packages
            == state.packages,
        line.cut("--- "@) is None ==> gradle::tree_row_spec(line) is None,
{
}

/// A module replaced by a project is none, and a version that is only described
/// is unknown.
pub proof fn projects_are_no_dependencies(
    line: Seq<char>,
    head: Seq<char>,
    entry: Seq<char>,
    first: Seq<char>,
    project: Seq<char>,
    version: Seq<char>,
)
    ensures
        line.cut("--- "@) == Some((head, entry)) && entry.words() == seq![
            first,
            "->"@,
            "project"@,
            project,
        ] && first != "->"@ && project.begins(":"@) ==> gradle::tree_row_spec(line) is None,
        version.len() == 0 || version.begins("{"@) || version.begins("("@)
            ==> gradle::plain_version_spec(version) is None,
        version.len() > 0 && !version.begins("{"@) && !version.begins("("@)
            ==> gradle::plain_version_spec(version) == Some(version),
{
    if line.cut("--- "@) == Some((head, entry)) && entry.words() == seq![
        first,
        "->"@,
        "project"@,
        project,
    ] && first != "->"@ && project.begins(":"@) {
        let f = |token: Seq<char>| token == "->"@;
        reveal_with_fuel(rows::index, 4);
        let tokens = entry.words();
        assert(tokens.skip(1)[0] == "->"@);
        assert(rows::index(tokens, f) == 1);
        assert(tokens.skip(2) =~= seq!["project"@, project]);
    }
}

} // verus!

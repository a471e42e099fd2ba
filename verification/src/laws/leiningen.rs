//! What `lein` says.

use vstd::prelude::*;

use crate::backends::leiningen;
use crate::form;
use crate::package::{InstallState, PackageView};
use crate::rows;
use crate::session::ReplyView;
use crate::text::{self, Text};

verus! {

/// A coordinate names the artifact, and its version in quotes.
pub proof fn coordinates_are_read(name: Seq<char>, version: Seq<char>, inner: Seq<char>)
    requires
        inner.words().len() > 0 && inner.words()[0] == name,
        inner.split("\""@).len() > 1 && inner.split("\""@)[1] == version,
    ensures
        leiningen::parse_coordinates_spec(inner) == Some((name, Some(version))),
{

}

/// A branch of the tree is a dependency that is installed.
pub proof fn tree_rows_are_read(
    line: Seq<char>,
    more: Seq<char>,
    inner: Seq<char>,
    name: Seq<char>,
    version: Option<Seq<char>>,
)
    requires
        form::is_line(line),
        line.begins_blank(),
        line.trim() == "["@ + inner,
        leiningen::parse_coordinates_spec(inner) == Some((name, version)),
    ensures
        leiningen::parse_tree_spec(form::above(line, more)) == seq![
            PackageView { name, version, state: InstallState::Installed, ..PackageView::blank() },
        ] + leiningen::parse_tree_spec(more),
        leiningen::parse_tree_spec(""@) == Seq::<PackageView>::empty(),
{
    form::a_prefix_is_found("["@, inner);
    form::a_row_is_read(line, more, |line: Seq<char>| leiningen::tree_row_spec(line));
    form::nothing_is_read();
}

/// A header `[name "version"] description` opens a result, and an indented line
/// describes it where nothing did.
pub proof fn search_results_are_read(
    state: leiningen::SearchScanView,
    line: Seq<char>,
    inner: Seq<char>,
    trailing: Seq<char>,
    name: Seq<char>,
    version: Option<Seq<char>>,
)
    ensures
        ({
            let next = leiningen::search_next_spec(state, line).packages;
            &&& !line.begins_blank() && line == "["@ + (
                inner + "]"@ + trailing
            ) && !inner.contains(']')
                && leiningen::parse_coordinates_spec(inner) == Some((name, version)) ==> next
                == state.packages.push(
                PackageView {
                    name,
                    version,
                    description: trailing.trim().filled(),
                    state: InstallState::Available,
                    ..PackageView::blank()
                },
            )
            &&& line.begins_blank() && line.trim().len() > 0 && state.packages.len() > 0 ==> next
                == state.packages.drop_last().push(
                if state.packages.last().description is None {
                    PackageView { description: Some(line.trim()), ..state.packages.last() }
                } else {
                    state.packages.last()
                },
            )
        }),
{
    reveal_strlit("]");
    form::a_prefix_is_found("["@, inner + "]"@ + trailing);
    if !inner.contains(']') {
        form::a_cut_is_found(inner, "]"@, trailing);
    }
    if state.packages.len() > 0 {
        assert(state.packages.drop_last().push(state.packages.last()) =~= state.packages);
    }
}

/// An artifact is found by its whole name, and by its last part where that is
/// all that is asked for.
pub proof fn artifacts_are_found_by_either_name(
    printed: Seq<char>,
    group: Seq<char>,
    artifact: Seq<char>,
)
    requires
        !artifact.contains('/'),
    ensures
        leiningen::matches_name_spec(printed, printed),
        leiningen::matches_name_spec(group + "/"@ + artifact, artifact),
        printed != artifact && !printed.contains('/') ==> !leiningen::matches_name_spec(
            printed,
            artifact,
        ),
{
    reveal_strlit("/");
    let name = group + "/"@ + artifact;
    assert("/"@ =~= seq!['/']);
    assert(name =~= group.push('/') + artifact);
    text::last_cut_undoes(group, '/', artifact);
    form::no_cut_is_found(artifact, "/"@);
    text::lemma_find_last(printed, '/');
    if !printed.contains('/') && text::find_last(printed, '/') >= 0 {
        assert(printed.contains(printed[text::find_last(printed, '/')]));
    }
}

/// What is installed at another version than the one to be had keeps its
/// version, and the one to be had is the latest.
pub proof fn installed_versions_are_compared(package: PackageView, local: PackageView)
    ensures
        local.version is Some && local.version != package.version ==> leiningen::merge_spec(
            Some(package),
            Some(local),
        ) == Some(
            PackageView {
                version: local.version,
                latest_version: package.version,
                state: InstallState::Installed,
                ..package
            },
        ),
        local.version == package.version ==> leiningen::merge_spec(Some(package), Some(local))
            == Some(PackageView { state: InstallState::Installed, ..package }),
        leiningen::merge_spec(Some(package), None) == Some(package),
        leiningen::merge_spec(None, Some(local)) == Some(local),
        leiningen::merge_spec(None, None) is None,
{
}

/// The tree is read from what was printed, and where that holds none from what
/// was printed as an error; what is added is the newest release.
pub proof fn the_tree_is_in_either_output(reply: ReplyView, name: Seq<char>)
    ensures
        leiningen::parse_tree_spec(reply.stdout).len() > 0 ==> leiningen::deps_tree_spec(reply)
            == leiningen::parse_tree_spec(reply.stdout),
        leiningen::parse_tree_spec(reply.stdout).len() == 0 ==> leiningen::deps_tree_spec(reply)
            == leiningen::parse_tree_spec(reply.stderr),
        leiningen::dependency_vector_spec(name) == "["@ + name + " \"RELEASE\"]"@,
{
}

/// An output of a single line is what that line says, and an empty one says
/// nothing.
pub proof fn single_lines_are_read(line: Seq<char>)
    requires
        form::is_line(line),
    ensures
        ({
            let start = leiningen::SearchScanView { packages: seq![] };
            let end = leiningen::search_next_spec(start, line);
            leiningen::parse_search_spec(form::above(line, ""@)) == end.packages
        }),
        ({
            let end = leiningen::SearchScanView { packages: seq![] };
            leiningen::parse_search_spec(""@) == end.packages
        }),
{
    let start = leiningen::SearchScanView { packages: seq![] };
    form::a_line_is_scanned(
        start,
        line,
        ""@,
        |state: leiningen::SearchScanView, line: Seq<char>| leiningen::search_next_spec(state, line),
    );
    form::nothing_is_read();
}

/// What is installed at an unknown version is installed.
pub proof fn unknown_versions_are_installed(package: PackageView, local: PackageView)
    requires
        local.version is None,
    ensures
        leiningen::merge_spec(Some(package), Some(local)) == Some(
            PackageView { state: InstallState::Installed, ..package },
        ),
{
}

/// A row that is not indented is no branch.
pub proof fn other_rows_say_nothing(line: Seq<char>, more: Seq<char>)
    requires
        form::is_line(line),
        !line.begins_blank() || !line.trim().begins("["@),
    ensures
        leiningen::parse_tree_spec(form::above(line, more)) == leiningen::parse_tree_spec(more),
{
    form::a_row_is_read(line, more, |line: Seq<char>| leiningen::tree_row_spec(line));
    form::nothing_is_read();
}

/// The first artifact that answers to the name is found.
pub proof fn artifacts_are_found(packages: Seq<PackageView>, name: Seq<char>, i: int)
    requires
        0 <= i < packages.len(),
    ensures
        leiningen::matches_name_spec(packages[i].name, name)
            ==> leiningen::matching_spec(packages, name)
            is Some,
        leiningen::matching_spec(packages, name) matches Some(p) ==> packages.contains(p)
            && leiningen::matches_name_spec(p.name, name),
{
    rows::first_has(packages, |p: PackageView| leiningen::matches_name_spec(p.name, name));
}

} // verus!

//! What `cs` says, and what is upgraded.

use vstd::prelude::*;

use crate::backends::coursier;
use crate::form;
use crate::package::{InstallState, PackageView};
use crate::request::RequestView;
use crate::rows;
use crate::text::Text;

verus! {

/// A line is a name, in the state of the listing.
pub proof fn names_are_read(line: Seq<char>, more: Seq<char>)
    requires
        form::is_phrase(line),
    ensures
        coursier::parse_list_spec(form::above(line, more)) == seq![
            PackageView { name: line, state: InstallState::Installed, ..PackageView::blank() },
        ] + coursier::parse_list_spec(more),
        coursier::parse_completions_spec(form::above(line, more)) == seq![
            PackageView { name: line, state: InstallState::Available, ..PackageView::blank() },
        ] + coursier::parse_completions_spec(more),
{
    form::a_phrase_is_a_line(line);
    form::a_row_is_read(
        line,
        more,
        |line: Seq<char>| coursier::name_row_spec(line, InstallState::Installed),
    );
    form::a_row_is_read(
        line,
        more,
        |line: Seq<char>| coursier::name_row_spec(line, InstallState::Available),
    );
}

/// What is pinned is installed at its version and what is not is updated: each
/// request is a target of exactly one of the two.
pub proof fn requests_are_sorted_out(packages: Seq<RequestView>, i: int)
    requires
        0 <= i < packages.len(),
    ensures
        coursier::targets_spec(
            packages,
            packages[i].version is Some,
        ).contains(packages[i].pinned(":"@)),
        coursier::sorted_out_spec(packages, packages[i].version is Some).contains(packages[i]),
        !coursier::sorted_out_spec(packages, packages[i].version is None).contains(packages[i]),
{
    let pinned = packages[i].version is Some;
    let kept = coursier::sorted_out_spec(packages, pinned);
    rows::kept_are_exactly(packages, |q: RequestView| (q.version is Some) == pinned);
    rows::kept_are_exactly(packages, |q: RequestView| (q.version is Some) == !pinned);
    assert(packages.contains(packages[i]));
    assert(kept.contains(packages[i]));
    let j = choose|j: int| 0 <= j < kept.len() && kept[j] == packages[i];
    assert(coursier::targets_spec(packages, pinned)[j] == packages[i].pinned(":"@));
}

/// An empty line is no name.
pub proof fn empty_lines_say_nothing(line: Seq<char>, more: Seq<char>)
    requires
        form::is_line(line),
        line.trim().len() == 0,
    ensures
        coursier::parse_list_spec(form::above(line, more)) == coursier::parse_list_spec(more),
{
    form::a_row_is_read(
        line,
        more,
        |line: Seq<char>| coursier::name_row_spec(line, InstallState::Installed),
    );
    form::nothing_is_read();
}

} // verus!

//! What `bundle` says.

use vstd::prelude::*;

use crate::backends::bundler;
use crate::form;
use crate::package::{InstallState, PackageView};
use crate::text::{self, Text};

verus! {

/// A row `* name (version)` is an installed gem.
pub proof fn listed_rows_are_read(
    line: Seq<char>,
    more: Seq<char>,
    name: Seq<char>,
    version: Seq<char>,
)
    requires
        form::is_line(line),
        line.trim() == "* "@ + name + " ("@ + version + ")"@,
        !name.contains(' '),
        text::is_word(version),
    ensures
        bundler::parse_list_spec(form::above(line, more)) == seq![
            PackageView {
                name,
                version: Some(version),
                state: InstallState::Installed,
                ..PackageView::blank()
            },
        ] + bundler::parse_list_spec(more),
        bundler::parse_list_spec(""@) == Seq::<PackageView>::empty(),
{
    reveal_strlit(" (");
    assert(line.trim() =~= "* "@ + (name + " ("@ + (version + ")"@)));
    form::a_prefix_is_found("* "@, name + " ("@ + (version + ")"@));
    form::a_cut_is_found(name, " ("@, version + ")"@);
    form::a_suffix_is_found(version, ")"@);
    form::a_word_is_a_phrase(version);
    form::a_row_is_read(line, more, |line: Seq<char>| bundler::list_row_spec(line));
    form::nothing_is_read();
}

/// The first row that names a gem opens its description, and the fields below
/// it go where they belong.
pub proof fn descriptions_are_read(
    package: PackageView,
    line: Seq<char>,
    key: Seq<char>,
    value: Seq<char>,
)
    requires
        line.trim().cut(":"@) matches Some((k, v)) && k.trim() == key && v.trim() == value,
    ensures
        key == "Summary"@
            ==> bundler::info_next_spec(Some(package), line) == Some(
                PackageView { description: Some(value), ..package },
            ),
        key == "Homepage"@
            ==> bundler::info_next_spec(Some(package), line) == Some(
                PackageView { homepage: Some(value), ..package },
            ),
        key != "Summary"@ && key != "Homepage"@
            ==> bundler::info_next_spec(Some(package), line) == Some(package),
        bundler::info_next_spec(None, line) == bundler::list_row_spec(line),
{
    reveal_strlit("Summary");
    reveal_strlit("Homepage");
    assert("Summary"@.len() == 7);
    assert("Homepage"@.len() == 8);
}

/// A bullet that tells the newest and the installed version is a gem at the
/// installed one that could be at the newest.
pub proof fn bullets_give_both_versions(
    state: bundler::OutdatedScanView,
    line: Seq<char>,
    name: Seq<char>,
    latest: Seq<char>,
    current: Seq<char>,
    tail: Seq<char>,
)
    requires
        line.trim() == "* "@ + name + " (newest "@ + latest + ", installed "@ + current + tail,
        !name.contains(' ') && !latest.contains(','),
        !current.contains(',') && !current.contains(')'),
        tail.len() > 0 && (tail[0] == ')' || tail[0] == ','),
    ensures
        bundler::outdated_next_spec(state, line).packages == state.packages.push(
            PackageView {
                name,
                version: Some(current),
                latest_version: Some(latest),
                state: InstallState::Upgradable,
                ..PackageView::blank()
            },
        ),
        bundler::outdated_next_spec(state, line).in_table == state.in_table,
{
    reveal_strlit(" (newest ");
    reveal_strlit(", installed ");
    reveal_strlit(",)");
    let rest = current + tail;
    let behind = latest + ", installed "@ + rest;
    assert(line.trim() =~= "* "@ + (name + " (newest "@ + behind));
    form::a_prefix_is_found("* "@, name + " (newest "@ + behind);
    form::a_cut_is_found(name, " (newest "@, behind);
    form::a_cut_is_found(latest, ", installed "@, rest);
    let set = ",)"@;
    text::lemma_find_set(rest, set, true);
    let at = text::find_set(rest, set, true) as int;
    assert(set[0] == ',' && set[1] == ')');
    assert(rest[current.len() as int] == tail[0]);
    assert(set.contains(tail[0]));
    if at < current.len() {
        assert(rest[at] == current[at]);
        assert(current.contains(current[at]));
    }
    assert(rest.take(current.len() as int) =~= current);
}

/// Below the heading, a row of name, current and latest version is a gem at the
/// one that could be at the other; above it, there are no rows.
pub proof fn tables_give_both_versions(
    state: bundler::OutdatedScanView,
    line: Seq<char>,
    name: Seq<char>,
    current: Seq<char>,
    latest: Seq<char>,
    more: Seq<Seq<char>>,
)
    requires
        line.trim().without_prefix("* "@) is None,
        line.trim().len() > 0,
        line.trim().words() == seq![name, current, latest] + more,
    ensures
        state.in_table
            ==> bundler::outdated_next_spec(state, line).packages == state.packages.push(
                PackageView {
                    name,
                    version: Some(current),
                    latest_version: Some(latest),
                    state: InstallState::Upgradable,
                    ..PackageView::blank()
                },
            ),
        state.in_table ==> bundler::outdated_next_spec(state, line).in_table,
        !state.in_table ==> bundler::outdated_next_spec(state, line).packages == state.packages,
        !state.in_table
            ==> bundler::outdated_next_spec(state, line).in_table == (
                name == "Gem"@ && current == "Current"@
            ),
{

}

/// An output of a single line is what that line says, and an empty one says
/// nothing.
pub proof fn single_lines_are_read(line: Seq<char>)
    requires
        form::is_line(line),
    ensures
        ({
            let start = None::<PackageView>;
            let end = bundler::info_next_spec(start, line);
            bundler::parse_info_spec(form::above(line, ""@)) == end
        }),
        ({
            let end = None::<PackageView>;
            bundler::parse_info_spec(""@) == end
        }),
{
    let start = None::<PackageView>;
    form::a_line_is_scanned(
        start,
        line,
        ""@,
        |state: Option<PackageView>, line: Seq<char>| bundler::info_next_spec(state, line),
    );
    form::nothing_is_read();
}

/// An output of a single line is what that line says, and an empty one says
/// nothing.
pub proof fn single_updates_are_read(line: Seq<char>)
    requires
        form::is_line(line),
    ensures
        ({
            let start = bundler::OutdatedScanView { packages: seq![], in_table: false };
            let end = bundler::outdated_next_spec(start, line);
            bundler::parse_outdated_spec(form::above(line, ""@)) == end.packages
        }),
        ({
            let end = bundler::OutdatedScanView { packages: seq![], in_table: false };
            bundler::parse_outdated_spec(""@) == end.packages
        }),
{
    let start = bundler::OutdatedScanView { packages: seq![], in_table: false };
    form::a_line_is_scanned(
        start,
        line,
        ""@,
        |state: bundler::OutdatedScanView, line: Seq<char>| bundler::outdated_next_spec(state, line),
    );
    form::nothing_is_read();
}

/// A line that is no entry is no gem.
pub proof fn other_rows_say_nothing(line: Seq<char>)
    requires
        !line.trim().begins("* "@),
    ensures
        bundler::list_row_spec(line) is None,
{

}

} // verus!

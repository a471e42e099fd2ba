//! What `hatch python show` says.

use vstd::prelude::*;

use crate::backends::hatch;
use crate::form;
use crate::package::{InstallState, PackageView};
use crate::rows;
use crate::text::{self, Text};

verus! {

/// Rows stand below the title of their table, which gives their state.
pub proof fn tables_give_the_state(
    state: hatch::ShowScanView,
    line: Seq<char>,
    name: Seq<char>,
    version: Seq<char>,
)
    requires
        text::is_word(name) && text::is_word(version),
        version.begins_digit(),
    ensures
        line.trim() == "Installed"@ ==> hatch::show_next_spec(state, line) == (hatch::ShowScanView {
            state: InstallState::Installed,
            ..state
        }),
        line.trim() == "Available"@ ==> hatch::show_next_spec(state, line) == (hatch::ShowScanView {
            state: InstallState::Available,
            ..state
        }),
        line.trim() != "Installed"@ && line.trim() != "Available"@ ==> hatch::show_next_spec(
            state,
            line,
        ).state == state.state,
        line.trim() != "Installed"@ && line.trim() != "Available"@ && rows::select(
            line.trim().split("│┃|"@),
            |cell: Seq<char>| hatch::cell_spec(cell),
        ) == seq![name, version] ==> hatch::show_next_spec(state, line).packages
            == if state.state == InstallState::Unknown {
            state.packages
        } else {
            state.packages.push(
                PackageView {
                    name,
                    version: Some(version),
                    state: state.state,
                    ..PackageView::blank()
                },
            )
        },
{
    reveal_strlit("Installed");
    reveal_strlit("Available");
    assert("Installed"@.len() == 9);
    assert("Available"@.len() == 9);
    assert("Installed"@[0] == 'I');
    assert("Available"@[0] == 'A');
}

/// An installed distribution is chosen before one to be had of the same name.
pub proof fn installed_distributions_come_first(
    packages: Seq<PackageView>,
    name: Seq<char>,
    package: PackageView,
)
    ensures
        hatch::choice_spec(packages, name) matches Some(p)
            ==> p.name == name && packages.contains(p),
        packages.contains(package) && package.name == name
            ==> hatch::choice_spec(packages, name) is Some,
        packages.contains(package) && package.name == name && package.state
            == InstallState::Installed ==> (hatch::choice_spec(packages, name) matches Some(p)
            && p.state == InstallState::Installed),
        hatch::installed_spec(packages).contains(package) <==> packages.contains(package)
            && package.state == InstallState::Installed,
{
    let f = |p: PackageView| p.name == name && p.state == InstallState::Installed;
    rows::first_has(packages, f);
    rows::first_has(packages, |p: PackageView| p.name == name);
    rows::kept_are_exactly(packages, |p: PackageView| p.state == InstallState::Installed);
    if packages.contains(package) && package.name == name {
        let i = choose|i: int| 0 <= i < packages.len() && packages[i] == package;
        assert(packages[i].name == name);
        if package.state == InstallState::Installed {
            assert(f(packages[i]));
        }
    }
}

/// An output of a single line is what that line says, and an empty one says
/// nothing.
pub proof fn single_lines_are_read(line: Seq<char>)
    requires
        form::is_line(line),
    ensures
        ({
            let start = hatch::ShowScanView { packages: seq![], state: InstallState::Unknown };
            let end = hatch::show_next_spec(start, line);
            hatch::parse_python_show_spec(form::above(line, ""@)) == end.packages
        }),
        ({
            let end = hatch::ShowScanView { packages: seq![], state: InstallState::Unknown };
            hatch::parse_python_show_spec(""@) == end.packages
        }),
{
    let start = hatch::ShowScanView { packages: seq![], state: InstallState::Unknown };
    form::a_line_is_scanned(
        start,
        line,
        ""@,
        |state: hatch::ShowScanView, line: Seq<char>| hatch::show_next_spec(state, line),
    );
    form::nothing_is_read();
}

/// A cell is what stands between the rules, without the blanks; empty ones do not
/// count.
pub proof fn cells_are_trimmed(cell: Seq<char>)
    ensures
        cell.trim().len() > 0 ==> hatch::cell_spec(cell) == Some(cell.trim()),
        cell.trim().len() == 0 ==> hatch::cell_spec(cell) is None,
{
}

/// A row needs a version that begins with a digit.
pub proof fn other_rows_say_nothing(line: Seq<char>, state: InstallState, cells: Seq<Seq<char>>)
    requires
        cells == rows::select(line.split("│┃|"@), |cell: Seq<char>| hatch::cell_spec(cell)),
    ensures
        cells.len() < 2 || !cells[1].begins_digit() || state == InstallState::Unknown
            ==> hatch::show_row_spec(line, state) is None,
{
}

} // verus!

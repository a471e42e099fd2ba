//! What Julia says.

use vstd::prelude::*;

use crate::backends::julia;
use crate::form;
use crate::package::{InstallState, PackageView};
use crate::text::Text;

verus! {

/// A row of name and version, with a tab between them, is an installed package.
pub proof fn listed_rows_are_read(
    line: Seq<char>,
    more: Seq<char>,
    name: Seq<char>,
    version: Seq<char>,
)
    requires
        form::is_line(line),
        name.len() > 0 && version.len() > 0,
        line.cut("\t"@) == Some((name, version)),
    ensures
        julia::parse_list_spec(form::above(line, more)) == seq![
            PackageView {
                name,
                version: Some(version),
                state: InstallState::Installed,
                ..PackageView::blank()
            },
        ] + julia::parse_list_spec(more),
        julia::parse_list_spec(""@) == Seq::<PackageView>::empty(),
{
    form::a_row_is_read(line, more, |line: Seq<char>| julia::list_row_spec(line));
    form::nothing_is_read();
}

/// A marked row `mark [id] name vversion` is a package at that version that can
/// be upgraded.
pub proof fn outdated_rows_are_read(
    line: Seq<char>,
    more: Seq<char>,
    head: Seq<char>,
    rest: Seq<char>,
    name: Seq<char>,
    version: Seq<char>,
)
    requires
        form::is_line(line),
        line.trim().begins("⌃"@) || line.trim().begins("⌅"@),
        line.trim().cut("]"@) == Some((head, rest)),
        rest.trim().words().len() >= 2,
        rest.trim().words()[0] == name && rest.trim().words()[1].trim_front("v"@) == version,
        version.len() > 0,
    ensures
        julia::parse_outdated_spec(form::above(line, more)) == seq![
            PackageView {
                name,
                version: Some(version),
                state: InstallState::Upgradable,
                ..PackageView::blank()
            },
        ] + julia::parse_outdated_spec(more),
        julia::parse_outdated_spec(""@) == Seq::<PackageView>::empty(),
{
    form::a_row_is_read(line, more, |line: Seq<char>| julia::outdated_row_spec(line));
    form::nothing_is_read();
}

/// A row without a mark is not outdated.
pub proof fn unmarked_rows_are_current(line: Seq<char>, more: Seq<char>)
    requires
        form::is_line(line),
        !line.trim().begins("⌃"@) && !line.trim().begins("⌅"@),
    ensures
        julia::parse_outdated_spec(form::above(line, more)) == julia::parse_outdated_spec(more),
        julia::parse_outdated_spec(""@) == Seq::<PackageView>::empty(),
{
    form::a_row_is_read(line, more, |line: Seq<char>| julia::outdated_row_spec(line));
    form::nothing_is_read();
}

/// A row without a name is no package.
pub proof fn nameless_rows_say_nothing(line: Seq<char>, more: Seq<char>)
    requires
        form::is_line(line),
        line.cut("\t"@) is None || (line.cut("\t"@)->0).0.len() == 0,
    ensures
        julia::parse_list_spec(form::above(line, more)) == julia::parse_list_spec(more),
{
    form::a_row_is_read(line, more, |line: Seq<char>| julia::list_row_spec(line));
    form::nothing_is_read();
}

} // verus!

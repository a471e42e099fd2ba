//! What `dpkg-query` says.

use vstd::prelude::*;

use crate::backends::dpkg;
use crate::form;
use crate::package::{self, InstallState, PackageView};
use crate::text::Text;

verus! {

/// A row of name, version, architecture, status and summary, with tabs between
/// them, is an installed package where the status ends in `installed`.
pub proof fn listed_rows_are_read(
    line: Seq<char>,
    more: Seq<char>,
    name: Seq<char>,
    version: Seq<char>,
    architecture: Seq<char>,
    status: Seq<char>,
    summary: Seq<char>,
)
    requires
        form::is_line(line),
        line.split("\t"@) == seq![name, version, architecture, status, summary],
        summary.len() > 0,
        status.words().len() > 0 && status.words().last() == "installed"@,
    ensures
        dpkg::parse_list_spec(form::above(line, more)) == seq![
            PackageView {
                name,
                version: Some(version),
                architecture: Some(architecture),
                description: Some(summary),
                state: InstallState::Installed,
                ..PackageView::blank()
            },
        ] + dpkg::parse_list_spec(more),
        dpkg::parse_list_spec(""@) == Seq::<PackageView>::empty(),
{
    form::a_row_is_read(line, more, |line: Seq<char>| dpkg::list_row_spec(line));
    form::nothing_is_read();
}

/// A row with another status is no package.
pub proof fn what_is_not_installed_is_not_listed(
    line: Seq<char>,
    more: Seq<char>,
    status: Seq<char>,
)
    requires
        form::is_line(line),
        line.split("\t"@).len() == 5,
        line.split("\t"@)[3] == status,
        status.words().len() == 0 || status.words().last() != "installed"@,
    ensures
        dpkg::parse_list_spec(form::above(line, more)) == dpkg::parse_list_spec(more),
        dpkg::parse_list_spec(""@) == Seq::<PackageView>::empty(),
{
    form::a_row_is_read(line, more, |line: Seq<char>| dpkg::list_row_spec(line));
    form::nothing_is_read();
}

/// Each field of a description goes where it belongs.
pub proof fn fields_go_where_they_belong(package: PackageView, value: Seq<char>)
    ensures
        dpkg::keyed_spec(package, "Package"@, value) == (PackageView { name: value, ..package }),
        dpkg::keyed_spec(package, "Version"@, value) == (
            PackageView { version: Some(value), ..package }
        ),
        dpkg::keyed_spec(package, "Architecture"@, value) == (
            PackageView { architecture: Some(value), ..package }
        ),
        dpkg::keyed_spec(package, "Section"@, value) == (
            PackageView { origin: Some(value), ..package }
        ),
        dpkg::keyed_spec(package, "Homepage"@, value) == (
            PackageView { homepage: Some(value), ..package }
        ),
        dpkg::keyed_spec(package, "Installed-Size"@, value) == (
            PackageView { installed_size: dpkg::kib_spec(value), ..package }
        ),
        dpkg::keyed_spec(package, "Depends"@, value) == (
            PackageView { dependencies: Some(package::dependency_names(value)), ..package }
        ),
        dpkg::keyed_spec(package, "Description"@, value) == (
            PackageView { description: Some(value), ..package }
        ),
{
    reveal_strlit("Package");
    reveal_strlit("Version");
    reveal_strlit("Architecture");
    reveal_strlit("Section");
    reveal_strlit("Homepage");
    reveal_strlit("Installed-Size");
    reveal_strlit("Depends");
    reveal_strlit("Description");
    assert("Package"@.len() == 7);
    assert("Version"@.len() == 7);
    assert("Architecture"@.len() == 12);
    assert("Section"@.len() == 7);
    assert("Homepage"@.len() == 8);
    assert("Installed-Size"@.len() == 14);
    assert("Depends"@.len() == 7);
    assert("Description"@.len() == 11);
    assert("Package"@[0] == 'P');
    assert("Version"@[0] == 'V');
    assert("Section"@[0] == 'S');
    assert("Depends"@[0] == 'D');
}

/// A size is a number of kibibytes; one that does not fit is unknown.
pub proof fn sizes_are_counted_in_kibibytes(value: Seq<char>, n: u64)
    requires
        value.number() == Some(n),
    ensures
        n * 1024 <= u64::MAX ==> (dpkg::kib_spec(value) matches Some(bytes) && bytes == n * 1024),
        n * 1024 > u64::MAX ==> dpkg::kib_spec(value) is None,
{

}

/// A field on a line of its own is taken in; a line that is indented, or that
/// has no value, is not.
pub proof fn fields_are_taken_in(
    state: dpkg::StatusScanView,
    line: Seq<char>,
    key: Seq<char>,
    value: Seq<char>,
)
    requires
        line.cut(":"@) matches Some((k, v)) && k.trim() == key && v.trim() == value,
        key != "Status"@,
    ensures
        value.len() > 0 && !line.begins_blank() ==> dpkg::status_next_spec(state, line) == (dpkg::StatusScanView {
            package: dpkg::keyed_spec(state.package, key, value),
            ..state
        }),
        value.len() == 0 || line.begins_blank() ==> dpkg::status_next_spec(state, line) == state,
{
}

/// A package is installed where its status ends in that word.
pub proof fn the_status_is_taken_in(
    state: dpkg::StatusScanView,
    line: Seq<char>,
    value: Seq<char>,
)
    requires
        line.cut(":"@) matches Some((k, v)) && k.trim() == "Status"@ && v.trim() == value,
        value.len() > 0 && !line.begins_blank(),
    ensures
        dpkg::status_next_spec(state, line).package == state.package,
        dpkg::status_next_spec(state, line).installed == (
            value.words().len() > 0 && value.words().last() == "installed"@
        ),
{

}

/// Only what is installed is described.
pub proof fn what_is_not_installed_is_not_found(name: Seq<char>)
    requires
        form::is_phrase(name),
    ensures
        dpkg::parse_status_spec(form::above(form::field("Package"@, name), ""@)) is None,
        dpkg::parse_status_spec(
            form::above(
                form::field("Package"@, name),
                form::above(form::field("Status"@, "install ok installed"@), ""@),
            ),
        ) == Some(
            PackageView { name, state: InstallState::Installed, ..PackageView::blank() },
        ),
{
    reveal_strlit("Package");
    reveal_strlit("Status");
    assert("Package"@.len() == 7);
    assert("Status"@.len() == 6);
    reveal_strlit("install");
    reveal_strlit("ok");
    reveal_strlit("installed");
    reveal_strlit("install ok installed");
    reveal_strlit(" ");
    let status = "install ok installed"@;
    form::spaced_words(seq!["install"@, "ok"@, "installed"@]);
    form::spaced_three("install"@, "ok"@, "installed"@);
    assert(status =~= form::spaced(seq!["install"@, "ok"@, "installed"@]));
    form::a_field_is_cut("Package"@, name);
    form::a_field_is_cut("Status"@, status);
    let start = dpkg::StatusScanView::start();
    let f = |state: dpkg::StatusScanView, line: Seq<char>| dpkg::status_next_spec(state, line);
    let first = form::field("Package"@, name);
    let second = form::field("Status"@, status);
    form::a_line_is_scanned(start, first, ""@, f);
    form::a_line_is_scanned(start, first, form::above(second, ""@), f);
    form::a_line_is_scanned(f(start, first), second, ""@, f);
    form::nothing_is_read();
}

} // verus!

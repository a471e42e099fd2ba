//! What `apk` says.

use vstd::prelude::*;

use crate::backends::apk;
use crate::form;
use crate::package::{InstallState, PackageView};
use crate::rows;
use crate::text::{self, Text};
use crate::version;

verus! {

/// A row of a listing names the package and its version first. Alone it is a
/// package to be had; marked as installed it is installed; and where it says
/// what it is upgradable from, that is the installed version and the listed one
/// is the latest.
pub proof fn listed_rows_are_read(
    line: Seq<char>,
    more: Seq<char>,
    name: Seq<char>,
    listed: Seq<char>,
    old_version: Seq<char>,
    before: Seq<char>,
    from: Seq<char>,
)
    requires
        form::is_line(line),
        line.words().len() > 1,
        version::split_last(line.words()[0]) == (name, Some(listed)),
        version::split_last(from.trim_back("]"@)).1 == Some(old_version),
    ensures
        ({
            let rows = apk::parse_list_spec(form::above(line, more));
            &&& rows.len() == 1 + apk::parse_list_spec(more).len()
            &&& rows.skip(1) == apk::parse_list_spec(more)
            &&& rows[0].name == name
            &&& rows[0].architecture == Some(line.words()[1])
            &&& rows[0].origin == apk::between_spec(line, '{', '}')
            &&& rows[0].license == apk::between_spec(line, '(', ')')
            &&& rows[0].description is None && rows[0].homepage is None
            &&& line.cut("[upgradable from: "@) == Some((before, from)) ==> rows[0].version == Some(
                old_version,
            ) && rows[0].latest_version == Some(listed) && rows[0].state
                == InstallState::Upgradable
            &&& line.cut("[upgradable from: "@) is None ==> rows[0].version == Some(listed)
                && rows[0].latest_version is None && rows[0].state == if line.has("[installed"@) {
                InstallState::Installed
            } else {
                InstallState::Available
            }
        }),
{
    form::a_row_is_read(line, more, |line: Seq<char>| apk::list_row_spec(line));
    let rows = apk::parse_list_spec(form::above(line, more));
    assert(rows.skip(1) =~= apk::parse_list_spec(more));
}

/// What stands between brackets is what is read from them.
pub proof fn brackets_hold_what_is_between_them(
    head: Seq<char>,
    inner: Seq<char>,
    tail: Seq<char>,
    open: char,
    close: char,
)
    requires
        !head.contains(open),
        !tail.contains(close),
    ensures
        apk::between_spec(
            head + seq![open] + inner + seq![close] + tail,
            open,
            close,
        ) == Some(inner),
{
    let line = head + seq![open] + inner + seq![close] + tail;
    let a = head.len() as int;
    let b = a + 1 + inner.len();
    let set = seq![open];
    text::lemma_find_set(line, set, true);
    assert(line[a] == open && set[0] == open);
    assert(set.contains(line[a]));
    let at = text::find_set(line, set, true) as int;
    if at < a {
        assert(line[at] == head[at]);
        assert(set.contains(head[at]));
        assert(head.contains(head[at]));
    }
    assert(at == a);
    text::lemma_find_last(line, close);
    let end = text::find_last(line, close);
    assert(line[b] == close);
    if end > b {
        assert(line[end] == tail[end - b - 1]);
        assert(tail.contains(tail[end - b - 1]));
    }
    assert(end == b);
    assert(line.subrange(a + 1, b) =~= inner);
}

/// A search result gives the package with its version, and what is said of it.
pub proof fn search_rows_are_read(
    line: Seq<char>,
    more: Seq<char>,
    pkgver: Seq<char>,
    name: Seq<char>,
    version: Seq<char>,
    description: Seq<char>,
)
    requires
        form::is_line(line),
        line.cut(" - "@) matches Some((p, d)) && p == pkgver && d.trim() == description,
        description.len() > 0,
        version::split_last(pkgver) == (name, Some(version)),
    ensures
        apk::parse_search_spec(form::above(line, more)) == seq![
            PackageView {
                name,
                version: Some(version),
                description: Some(description),
                state: InstallState::Available,
                ..PackageView::blank()
            },
        ] + apk::parse_search_spec(more),
        apk::parse_search_spec(""@) == Seq::<PackageView>::empty(),
{
    form::a_row_is_read(line, more, |line: Seq<char>| apk::search_row_spec(line));
    form::nothing_is_read();
}

/// A description is made of sections: the first header names the package, each
/// header opens its section, and the lines of a section go where they belong.
pub proof fn sections_are_read(
    state: apk::InfoScanView,
    line: Seq<char>,
    package: PackageView,
    name: Seq<char>,
    version: Seq<char>,
    label: Seq<char>,
)
    requires
        line.trim_end() == line,
        line.len() > 0,
    ensures
        ({
            let next = apk::info_next_spec(state, line);
            &&& apk::info_header_spec(line) == Some((name, version, label))
                ==> next.section == Some(label)
            &&& apk::info_header_spec(line) == Some(
                (name, version, label),
            ) && state.package is None
                ==> next.package == Some(
                PackageView {
                    name,
                    version: Some(version),
                    state: InstallState::Available,
                    ..PackageView::blank()
                },
            )
            &&& apk::info_header_spec(line) is Some && state.package is Some ==> next.package
                == state.package
            &&& apk::info_header_spec(line) is None ==> next.section == state.section
            &&& apk::info_header_spec(line) is None && state.package == Some(package) ==> ({
                &&& state.section == Some("description"@) ==> next.package == Some(
                    PackageView {
                        description: if package.description is None {
                            Some(line)
                        } else {
                            Some(package.description->0 + " "@ + line)
                        },
                        ..package
                    },
                )
                &&& state.section == Some("webpage"@) && package.homepage is None ==> next.package
                    == Some(PackageView { homepage: Some(line), ..package })
                &&& state.section == Some("depends on"@) ==> next.package == Some(
                    PackageView {
                        dependencies: if package.dependencies is None {
                            Some(seq![line])
                        } else {
                            Some(package.dependencies->0.push(line))
                        },
                        ..package
                    },
                )
                &&& state.section is None ==> next.package == Some(package)
            })
        }),
        apk::info_next_spec(state, seq![]).section is None,
        apk::info_next_spec(state, seq![]).package == state.package,
{
    reveal_strlit("description");
    reveal_strlit("webpage");
    reveal_strlit("depends on");
    assert("description"@.len() == 11);
    assert("webpage"@.len() == 7);
    assert("depends on"@.len() == 10);
    assert(Seq::<char>::empty().trim_end() =~= seq![]);
}

/// A header is made of the package with its version, and the label of its
/// section.
pub proof fn headers_are_read(
    name: Seq<char>,
    version: Seq<char>,
    pkgver: Seq<char>,
    label: Seq<char>,
)
    requires
        version::split_last(pkgver) == (name, Some(version)),
        !pkgver.contains(' '),
    ensures
        apk::info_header_spec(pkgver + " "@ + label + ":"@) == Some((name, version, label)),
{
    reveal_strlit(" ");
    form::a_suffix_is_found(pkgver + " "@ + label, ":"@);
    form::a_cut_is_found(pkgver, " "@, label);
}

/// The last row with the name counts, one that is installed before one that is
/// to be had; the description adds what the listing leaves out, and stands
/// alone where the listing has no such package.
pub proof fn descriptions_are_merged(
    name: Seq<char>,
    listing: Seq<char>,
    details: Seq<char>,
    package: PackageView,
    described: PackageView,
)
    requires
        package.name == name,
        described.name == name,
    ensures
        ({
            let merged = apk::merge_info_spec(name, listing, details);
            &&& apk::parse_list_spec(listing) == seq![package] && apk::parse_info_spec(details) == Some(
                described,
            ) ==> merged == Some(
                PackageView {
                    description: described.description,
                    homepage: described.homepage,
                    dependencies: described.dependencies,
                    ..package
                },
            )
            &&& apk::parse_list_spec(listing) == seq![package]
                && apk::parse_info_spec(details) is None
                ==> merged == Some(package)
            &&& apk::parse_list_spec(listing).len() == 0 && apk::parse_info_spec(details) == Some(
                described,
            ) ==> merged == Some(described)
            &&& apk::parse_list_spec(listing).len() == 0 && apk::parse_info_spec(details) is None
                ==> merged is None
        }),
{
    reveal_with_fuel(rows::last, 2);
    assert(seq![package].last() == package);
    assert(seq![package].drop_last() =~= seq![]);
    let listed = apk::parse_list_spec(listing);
    if listed.len() == 0 {
        assert(listed =~= seq![]);
    }
}

/// Of an installed row and one to be had, whichever comes last, the installed
/// one is described.
pub proof fn what_is_installed_counts_first(
    name: Seq<char>,
    listing: Seq<char>,
    details: Seq<char>,
    installed: PackageView,
    other: PackageView,
)
    requires
        installed.name == name && installed.state != InstallState::Available,
        other.name == name && other.state == InstallState::Available,
        apk::parse_info_spec(details) is None,
        apk::parse_list_spec(listing) == seq![
            installed,
            other,
        ] || apk::parse_list_spec(listing) == seq![other, installed],
    ensures
        apk::merge_info_spec(name, listing, details) == Some(installed),
{
    reveal_with_fuel(rows::last, 3);
    let a = seq![installed, other];
    let b = seq![other, installed];
    assert(a.drop_last() =~= seq![installed] && a.last() == other);
    assert(b.drop_last() =~= seq![other] && b.last() == installed);
    assert(seq![installed].last() == installed);
    assert(seq![other].last() == other);
}

/// An output of a single line is what that line says, and an empty one says
/// nothing.
pub proof fn single_lines_are_read(line: Seq<char>)
    requires
        form::is_line(line),
    ensures
        ({
            let start = apk::InfoScanView { package: None, section: None };
            let end = apk::info_next_spec(start, line);
            apk::parse_info_spec(form::above(line, ""@)) == end.package
        }),
        ({
            let end = apk::InfoScanView { package: None, section: None };
            apk::parse_info_spec(""@) == end.package
        }),
{
    let start = apk::InfoScanView { package: None, section: None };
    form::a_line_is_scanned(
        start,
        line,
        ""@,
        |state: apk::InfoScanView, line: Seq<char>| apk::info_next_spec(state, line),
    );
    form::nothing_is_read();
}

/// Where a bracket is missing nothing stands between them.
pub proof fn missing_brackets_hold_nothing(line: Seq<char>, open: char, close: char)
    requires
        !line.contains(open) || !line.contains(close),
    ensures
        apk::between_spec(line, open, close) is None,
{
    let set = seq![open];
    text::lemma_find_set(line, set, true);
    text::lemma_find_last(line, close);
    let at = text::find_set(line, set, true) as int;
    let end = text::find_last(line, close);
    assert(set[0] == open);
    if at < line.len() {
        assert(set.contains(line[at]));
        assert(line.contains(line[at]));
    }
    if end >= 0 {
        assert(line.contains(line[end]));
    }
}

/// A row without a version is no package.
pub proof fn unversioned_rows_say_nothing(line: Seq<char>, more: Seq<char>)
    requires
        form::is_line(line),
        line.words().len() == 0 || version::split_last(line.words()[0]).1 is None,
    ensures
        apk::parse_list_spec(form::above(line, more)) == apk::parse_list_spec(more),
{
    form::a_row_is_read(line, more, |line: Seq<char>| apk::list_row_spec(line));
    form::nothing_is_read();
}

/// A search result without a description is the package with its version.
pub proof fn bare_results_have_no_description(
    line: Seq<char>,
    name: Seq<char>,
    version: Seq<char>,
)
    requires
        line.cut(" - "@) is None,
        version::split_last(line.trim()) == (name, Some(version)),
    ensures
        apk::search_row_spec(line) == Some(
            PackageView {
                name,
                version: Some(version),
                state: InstallState::Available,
                ..PackageView::blank()
            },
        ),
{

}

} // verus!

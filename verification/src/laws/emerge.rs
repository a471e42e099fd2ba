//! What `emerge` and the database of installed packages say.

use vstd::prelude::*;

use crate::backends::emerge;
use crate::form;
use crate::package::{InstallState, PackageView};
use crate::pattern;
use crate::request::RequestView;
use crate::rows;
use crate::session::{self, ActionView, ReplyView, StepView};
use crate::text::Text;
use crate::version;

verus! {

/// A pinned package is written `=name-version`.
pub proof fn exact_versions_are_written(request: RequestView, version: Seq<char>)
    ensures
        request.version == Some(version)
            ==> emerge::exact_spec(request) == "="@ + request.name + "-"@ + version,
        request.version is None ==> emerge::exact_spec(request) == request.name,
{

}

/// A row `[ebuild U] category/name-new [old]` is a package at the old version
/// that could be at the new one.
pub proof fn updates_give_both_versions(
    line: Seq<char>,
    more: Seq<char>,
    flags: Seq<char>,
    rest: Seq<char>,
    category: Seq<char>,
    pf: Seq<char>,
    name: Seq<char>,
    old_version: Seq<char>,
    new_version: Seq<char>,
)
    requires
        form::is_line(line),
        line == "[ebuild"@ + (flags + "]"@ + rest) || line == "[binary"@ + (flags + "]"@ + rest),
        !flags.contains(']') && flags.has("U"@),
        rest.words().len() > 1,
        rest.words()[0] == category + "/"@ + pf,
        !category.contains('/'),
        version::split_last(pf) == (name, Some(new_version)),
        rest.words()[1] == "["@ + old_version + "]"@,
        old_version.begins_digit(),
    ensures
        emerge::parse_pretend_spec(form::above(line, more)) == seq![
            PackageView {
                name: category + "/"@ + name,
                version: Some(old_version),
                latest_version: Some(new_version),
                state: InstallState::Upgradable,
                ..PackageView::blank()
            },
        ] + emerge::parse_pretend_spec(more),
        emerge::parse_pretend_spec(""@) == Seq::<PackageView>::empty(),
{
    let body = flags + "]"@ + rest;
    reveal_strlit("]");
    reveal_strlit("/");
    form::a_prefix_is_found("[ebuild"@, body);
    form::a_prefix_is_found("[binary"@, body);
    if line == "[binary"@ + body {
        reveal_strlit("[ebuild");
        reveal_strlit("[binary");
        assert(line[1] == 'b');
        if line.begins("[ebuild"@) {
            assert(line.take(7)[1] == "[ebuild"@[1]);
        }
    }
    form::a_cut_is_found(flags, "]"@, rest);
    form::a_cut_is_found(category, "/"@, pf);
    assert(rest.words()[1] =~= "["@ + (old_version + "]"@));
    form::a_prefix_is_found("["@, old_version + "]"@);
    form::a_suffix_is_found(old_version, "]"@);
    form::a_row_is_read(line, more, |line: Seq<char>| emerge::pretend_row_spec(line));
    form::nothing_is_read();
}

/// What is installed at the available version is up to date; at another one it
/// can be upgraded to it; what is not installed is to be had.
pub proof fn versions_are_compared(block: emerge::BlockView)
    requires
        block.package.latest_version is None,
    ensures
        ({
            let package = block.close();
            &&& package.name == block.package.name
            &&& package.description == block.package.description
            &&& block.installed is None ==> package.version == block.available && package.state
                == InstallState::Available && package.latest_version is None
            &&& block.installed is Some ==> package.version == block.installed
            &&& block.installed is Some && (block.available is None || block.available
                == block.installed) ==> package.state == InstallState::Installed
                && package.latest_version is None
            &&& block.installed is Some && block.available is Some && block.available
                != block.installed ==> package.state == InstallState::Upgradable
                && package.latest_version == block.available
        }),
{
}

/// Each field of a result goes where it belongs.
pub proof fn fields_go_where_they_belong(
    block: emerge::BlockView,
    line: Seq<char>,
    key: Seq<char>,
    value: Seq<char>,
)
    requires
        line.cut(":"@) matches Some((k, v)) && k.trim() == key && v.trim() == value,
        value.len() > 0,
    ensures
        key == "Latest version available"@
            ==> emerge::block_line_spec(block, line) == (
                emerge::BlockView { available: Some(value), ..block }
            ),
        key == "Latest version installed"@ && !value.begins("["@)
            ==> emerge::block_line_spec(block, line) == (
                emerge::BlockView { installed: Some(value), ..block }
            ),
        key == "Latest version installed"@ && value.begins("["@)
            ==> emerge::block_line_spec(block, line) == block,
        key == "Size of files"@
            ==> emerge::block_line_spec(block, line) == (
                emerge::BlockView {
                    package: PackageView {
                        download_size: emerge::parse_size_spec(value),
                        ..block.package
                    },
                    ..block
                }
            ),
        key == "Homepage"@
            ==> emerge::block_line_spec(block, line) == (
                emerge::BlockView {
                    package: PackageView { homepage: Some(value), ..block.package },
                    ..block
                }
            ),
        key == "Description"@
            ==> emerge::block_line_spec(block, line) == (
                emerge::BlockView {
                    package: PackageView { description: Some(value), ..block.package },
                    ..block
                }
            ),
        key == "License"@
            ==> emerge::block_line_spec(block, line) == (
                emerge::BlockView {
                    package: PackageView { license: Some(value), ..block.package },
                    ..block
                }
            ),
{
    reveal_strlit("Latest version available");
    reveal_strlit("Latest version installed");
    reveal_strlit("Size of files");
    reveal_strlit("Homepage");
    reveal_strlit("Description");
    reveal_strlit("License");
    assert("Latest version available"@.len() == 24);
    assert("Latest version installed"@.len() == 24);
    assert("Size of files"@.len() == 13);
    assert("Homepage"@.len() == 8);
    assert("Description"@.len() == 11);
    assert("License"@.len() == 7);
    assert("Latest version available"@[15] == 'a');
    assert("Latest version installed"@[15] == 'i');
}

/// A header opens the next result and closes the last one, and any other line
/// belongs to the result that is open.
pub proof fn results_are_read(
    state: emerge::SearchScanView,
    line: Seq<char>,
    block: emerge::BlockView,
    header: Seq<char>,
)
    ensures
        ({
            let next = emerge::search_next_spec(state, line);
            &&& line.without_prefix("*"@) == Some(header) && header.words().len() > 0 ==> next
                == (emerge::SearchScanView {
                packages: state.finish(),
                current: Some(
                    emerge::BlockView {
                        package: PackageView { name: header.words()[0], ..PackageView::blank() },
                        installed: None,
                        available: None,
                    },
                ),
            })
            &&& line.without_prefix("*"@) is None && state.current == Some(block) ==> next
                == (emerge::SearchScanView {
                current: Some(emerge::block_line_spec(block, line)),
                ..state
            })
            &&& line.without_prefix("*"@) is None && state.current is None ==> next == state
        }),
        state.current is None ==> state.finish() == state.packages,
        state.current == Some(block) && block.package.name.len() > 0 ==> state.finish()
            == state.packages.push(block.close()),
{
}

/// A package is found by its whole name or without its category.
pub proof fn packages_are_found_by_either_name(
    packages: Seq<PackageView>,
    name: Seq<char>,
    i: int,
)
    requires
        0 <= i < packages.len(),
    ensures
        packages[i].name == name || packages[i].name.after_last('/') == name
            ==> emerge::find_name_spec(packages, name) is Some,
        emerge::find_name_spec(packages, name) matches Some(p) ==> packages.contains(p) && (p.name
            == name || p.name.after_last('/') == name),
{
    lemma_found(packages, name);
}

proof fn lemma_found(packages: Seq<PackageView>, name: Seq<char>)
    ensures
        match emerge::find_name_spec(packages, name) {
            Some(p) => packages.contains(p) && (p.name == name || p.name.after_last('/') == name),
            None => forall|i: int| 0 <= i < packages.len() ==> !(
                (
                    #[trigger] packages[i]
                ).name == name || (#[trigger] packages[i]).name.after_last('/') == name
            ),
        },
    decreases packages.len(),
{
    if packages.len() > 0 {
        let rest = packages.skip(1);
        lemma_found(rest, name);
        assert(packages[0] == packages.first());
        if (packages[0].name == name || packages[0].name.after_last('/') == name) {
            assert(packages.contains(packages[0]));
        } else {
            match emerge::find_name_spec(rest, name) {
                Some(p) => {
                    let i = choose|i: int| 0 <= i < rest.len() && rest[i] == p;
                    assert(packages[i + 1] == p);
                },
                None => {
                    assert forall|i: int| 0 <= i < packages.len() implies !((#[trigger] packages[i]).name == name || (#[trigger] packages[i]).name.after_last('/') == name) by {
                        if i > 0 {
                            assert(rest[i - 1] == packages[i]);
                        }
                    }
                },
            }
        }
    }
}


/// An entry of a category is an installed package, with the category before its
/// name; hidden and broken entries are none.
pub proof fn entries_are_read(
    category: Seq<char>,
    entry: Seq<char>,
    name: Seq<char>,
    version: Option<Seq<char>>,
)
    requires
        version::split_last(entry) == (name, version),
    ensures
        entry.begins("."@) || entry.begins("-"@)
            ==> emerge::vdb_row_spec(category, entry) is None,
        !entry.begins("."@) && !entry.begins("-"@) ==> emerge::vdb_row_spec(category, entry) == Some(
            PackageView {
                name: category + "/"@ + name,
                version,
                state: InstallState::Installed,
                ..PackageView::blank()
            },
        ),
{
}

/// The entries of each category are read with that category.
pub proof fn categories_keep_their_entries(
    categories: Seq<Seq<char>>,
    category: Seq<char>,
    before: Seq<Seq<Seq<char>>>,
    entries: Seq<Seq<char>>,
)
    requires
        before.len() == categories.len(),
    ensures
        emerge::vdb_spec(categories.push(category), before.push(entries)) == emerge::vdb_spec(
            categories,
            before.push(entries),
        ) + emerge::category_spec(category, entries),
        emerge::vdb_spec(seq![], before).len() == 0,
{
    assert(categories.push(category).drop_last() =~= categories);
}

/// The database is read category by category: with all that was asked for
/// answered, the directory of the category that follows is read, and each
/// accepted category is read exactly once and in order.
pub proof fn each_category_is_read_once(
    manager: emerge::Manager,
    replies: Seq<ReplyView>,
    accepted: Seq<Seq<char>>,
)
    requires
        replies.len() > 0,
        forall|i: int| 0 <= i < replies.len() ==> (#[trigger] replies[i]).success,
        accepted == rows::keep(
            replies[0].entries,
            |name: Seq<char>| !name.begins("."@) && !name.begins("-"@),
        ),
    ensures
        forall|k: int|
            1 <= k <= accepted.len() && k <= replies.len() ==> (
            #[trigger] manager.list_installed_spec(replies.take(k))) == StepView::<
                Seq<PackageView>,
            >::Act(
                ActionView::Directories {
                    path: "/var/db/pkg/"@ + accepted[k - 1],
                    links: false,
                    lenient: false,
                },
            ),
        replies.len() == accepted.len() + 1 ==> manager.list_installed_spec(replies) is Done,
{
    rows::kept_alike(
        replies[0].entries,
        |name: Seq<char>| emerge::is_entry_spec(name),
        |name: Seq<char>| !name.begins("."@) && !name.begins("-"@),
    );
    assert forall|k: int| 1 <= k <= accepted.len() && k <= replies.len() implies (
    #[trigger] manager.list_installed_spec(replies.take(k))) == StepView::<Seq<PackageView>>::Act(
        ActionView::Directories {
            path: "/var/db/pkg/"@ + accepted[k - 1],
            links: false,
            lenient: false,
        },
    ) by {
        let some = replies.take(k);
        assert forall|i: int| 0 <= i < some.len() implies (#[trigger] some[i]).success by {
            assert(some[i] == replies[i]);
        }
        session::lemma_none_failed(some);
        assert(some[0] == replies[0]);
    }
    session::lemma_none_failed(replies);
}

/// An output of a single line is what that line says, and an empty one says
/// nothing.
pub proof fn single_lines_are_read(line: Seq<char>)
    requires
        form::is_line(line),
    ensures
        ({
            let start = emerge::SearchScanView { packages: seq![], current: None };
            let end = emerge::search_next_spec(start, line);
            emerge::parse_search_spec(form::above(line, ""@)) == end.finish()
        }),
        ({
            let end = emerge::SearchScanView { packages: seq![], current: None };
            emerge::parse_search_spec(""@) == end.finish()
        }),
{
    let start = emerge::SearchScanView { packages: seq![], current: None };
    form::a_line_is_scanned(
        start,
        line,
        ""@,
        |state: emerge::SearchScanView, line: Seq<char>| emerge::search_next_spec(state, line),
    );
    form::nothing_is_read();
}

/// A row without the mark of an update is none.
pub proof fn new_packages_are_no_updates(
    line: Seq<char>,
    more: Seq<char>,
    flags: Seq<char>,
    rest: Seq<char>,
)
    requires
        form::is_line(line),
        line == "[ebuild"@ + (flags + "]"@ + rest),
        !flags.contains(']') && !flags.has("U"@),
    ensures
        emerge::parse_pretend_spec(form::above(line, more)) == emerge::parse_pretend_spec(more),
{
    reveal_strlit("]");
    form::a_prefix_is_found("[ebuild"@, flags + "]"@ + rest);
    form::a_cut_is_found(flags, "]"@, rest);
    form::a_row_is_read(line, more, |line: Seq<char>| emerge::pretend_row_spec(line));
    form::nothing_is_read();
}

/// A line that opens with neither mark is no update.
pub proof fn other_lines_are_no_updates(line: Seq<char>, more: Seq<char>)
    requires
        form::is_line(line),
        !line.begins("[ebuild"@) && !line.begins("[binary"@),
    ensures
        emerge::parse_pretend_spec(form::above(line, more)) == emerge::parse_pretend_spec(more),
{
    form::a_row_is_read(line, more, |line: Seq<char>| emerge::pretend_row_spec(line));
    form::nothing_is_read();
}

/// Names are escaped in patterns, but for what can stand in a name.
pub proof fn names_are_escaped(
    category: Seq<char>,
    entries: Seq<Seq<char>>,
    entry: Seq<char>,
    name: Seq<char>,
)
    ensures
        emerge::regex_escape_spec(name) == pattern::escaped(name, "_-/"@),
        emerge::vdb_row_spec(category, entry) matches Some(package) ==> emerge::category_spec(
            category,
            entries.push(entry),
        ) == emerge::category_spec(category, entries).push(package),
        emerge::vdb_row_spec(category, entry) is None ==> emerge::category_spec(
            category,
            entries.push(entry),
        ) == emerge::category_spec(category, entries),
{
    assert(entries.push(entry).drop_last() =~= entries);
}

} // verus!

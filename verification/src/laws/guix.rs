//! What `guix` says.

use vstd::prelude::*;

use crate::backends::guix;
use crate::command::CmdView;
use crate::error::ErrorView;
use crate::form;
use crate::laws::versions;
use crate::package::{InstallState, PackageView};
use crate::rows;
use crate::session::{self, ReplyView, StepView};
use crate::text::{self, Text};

verus! {

/// A row of name and version, with tabs between them, is an installed package.
pub proof fn installed_rows_are_read(
    line: Seq<char>,
    more: Seq<char>,
    name: Seq<char>,
    version: Seq<char>,
)
    requires
        form::is_line(line),
        line.split("\t"@).len() >= 2,
        line.split("\t"@)[0] == name && line.split("\t"@)[1] == version,
        name.trim().len() > 0 && version.trim().len() > 0,
    ensures
        guix::parse_installed_spec(form::above(line, more)) == seq![
            PackageView {
                name: name.trim(),
                version: Some(version.trim()),
                state: InstallState::Installed,
                ..PackageView::blank()
            },
        ] + guix::parse_installed_spec(more),
        guix::parse_installed_spec(""@) == Seq::<PackageView>::empty(),
{
    form::a_row_is_read(line, more, |line: Seq<char>| guix::installed_row_spec(line));
    form::nothing_is_read();
}

/// Each field of a record goes where it belongs.
pub proof fn fields_go_where_they_belong(package: PackageView, value: Seq<char>)
    requires
        value.len() > 0,
    ensures
        guix::field_spec(package, "name"@, value) == (PackageView { name: value, ..package }),
        guix::field_spec(package, "version"@, value) == (
            PackageView { version: Some(value), ..package }
        ),
        guix::field_spec(package, "synopsis"@, value) == (
            PackageView { description: Some(value), ..package }
        ),
        guix::field_spec(package, "homepage"@, value) == (
            PackageView { homepage: Some(value), ..package }
        ),
        guix::field_spec(package, "license"@, value) == (
            PackageView { license: Some(value), ..package }
        ),
        guix::field_spec(package, "dependencies"@, value) == (
            PackageView { dependencies: Some(guix::dependencies_spec(value)), ..package }
        ),
{
    reveal_strlit("name");
    reveal_strlit("version");
    reveal_strlit("synopsis");
    reveal_strlit("homepage");
    reveal_strlit("license");
    reveal_strlit("dependencies");
    assert("name"@.len() == 4);
    assert("version"@.len() == 7);
    assert("synopsis"@.len() == 8);
    assert("homepage"@.len() == 8);
    assert("license"@.len() == 7);
    assert("dependencies"@.len() == 12);
    assert("version"@[0] == 'v');
    assert("license"@[0] == 'l');
    assert("synopsis"@[0] == 's');
    assert("homepage"@[0] == 'h');
}

/// A field belongs to the record that is open, a line that begins with `+` goes
/// on with the last field, and an empty line ends the record.
pub proof fn records_are_read(
    state: guix::RecordScanView,
    line: Seq<char>,
    package: PackageView,
    key: Seq<char>,
    value: Seq<char>,
    more: Seq<char>,
)
    ensures
        ({
            let next = guix::record_next_spec(state, line);
            &&& line.trim().len() == 0 && state.current == Some(package) && package.name.len() > 0
                ==> next.packages == state.packages.push(package) && next.current is None
            &&& line.trim().len() == 0 && state.current is None
                ==> next.packages == state.packages
            &&& line.trim().len() > 0 && line.without_prefix("+"@) == Some(more) && state.current
                == Some(package) ==> next == (guix::RecordScanView {
                current: Some(guix::continued_spec(package, state.last_key, more.trim())),
                ..state
            })
            &&& line.trim().len() > 0 && line.without_prefix("+"@) is None && (line.cut(":"@) matches
                Some((k, v)) && k.trim() == key && v.trim() == value) ==> next
                == (guix::RecordScanView {
                current: Some(
                    guix::field_spec(
                        if state.current is Some {
                            state.current->0
                        } else {
                            PackageView::blank()
                        },
                        key,
                        value,
                    ),
                ),
                last_key: key,
                ..state
            })
        }),
        package.name.len() > 0 && package.description == Some(value) && more.len() > 0
            ==> guix::continued_spec(package, "synopsis"@, more) == (PackageView {
            description: Some(if value.len() == 0 { more } else { value + " "@ + more }),
            ..package
        }),
        package.license == Some(value) && value.len() > 0 && more.len() > 0 ==> guix::continued_spec(
            package,
            "license"@,
            more,
        ) == (PackageView { license: Some(value + " "@ + more), ..package }),
        package.dependencies is Some && more.len() > 0 ==> guix::continued_spec(
            package,
            "dependencies"@,
            more,
        ) == (PackageView {
            dependencies: Some(package.dependencies->0 + guix::dependencies_spec(more)),
            ..package
        }),
{
    reveal_strlit("name");
    reveal_strlit("version");
    reveal_strlit("synopsis");
    reveal_strlit("homepage");
    reveal_strlit("license");
    reveal_strlit("dependencies");
    assert("name"@.len() == 4);
    assert("version"@.len() == 7);
    assert("synopsis"@.len() == 8);
    assert("homepage"@.len() == 8);
    assert("license"@.len() == 7);
    assert("dependencies"@.len() == 12);
    assert("version"@[0] == 'v');
    assert("license"@[0] == 'l');
    assert("synopsis"@[0] == 's');
    assert("homepage"@[0] == 'h');
}

/// What is installed at another version keeps it, and can be upgraded where the
/// one to be had is newer.
pub proof fn installed_versions_are_compared(
    package: PackageView,
    version: Seq<char>,
    offered: Seq<char>,
)
    requires
        version.len() > 0,
        package.version == Some(offered),
    ensures
        guix::merge_installed_spec(package, seq![]) == package,
        offered == version ==> guix::merge_installed_spec(package, seq![(package.name, version)]) == (
        PackageView { state: InstallState::Installed, ..package }),
        offered != version ==> guix::merge_installed_spec(package, seq![(package.name, version)]) == (
        PackageView {
            version: Some(version),
            latest_version: Some(offered),
            state: if guix::version_newer_spec(offered, version) {
                InstallState::Upgradable
            } else {
                InstallState::Installed
            },
            ..package
        }),
{
}

/// An installed package is outdated exactly where the best version to be had is
/// newer.
pub proof fn outdated_packages_have_newer_versions(
    name: Seq<char>,
    version: Seq<char>,
    available: Seq<(Seq<char>, Seq<char>)>,
    best: Seq<char>,
)
    ensures
        guix::best_spec(available, name) is None
            ==> guix::outdated_row_spec((name, version), available)
            is None,
        guix::best_spec(available, name) == Some(best) && !guix::version_newer_spec(best, version)
            ==> guix::outdated_row_spec((name, version), available) is None,
        guix::best_spec(available, name) == Some(best) && guix::version_newer_spec(best, version)
            ==> guix::outdated_row_spec((name, version), available) == Some(
            PackageView {
                name,
                version: Some(version),
                latest_version: Some(best),
                state: InstallState::Upgradable,
                ..PackageView::blank()
            },
        ),
        guix::version_newer_spec(version, best) ==> guix::best_spec(
            seq![(name, best), (name, version)],
            name,
        ) == Some(version),
        !guix::version_newer_spec(version, best) ==> guix::best_spec(
            seq![(name, best), (name, version)],
            name,
        ) == Some(best),
{
    reveal_with_fuel(guix::best_spec, 3);
    let both = seq![(name, best), (name, version)];
    assert(both.last() == (name, version));
    assert(both.drop_last() =~= seq![(name, best)]);
    assert(seq![(name, best)].last() == (name, best));
    assert(seq![(name, best)].drop_last() =~= seq![]);
}

/// What is installed is asked for first and what is to be had next, and the two
/// are compared in that order.
pub proof fn listings_are_compared(manager: guix::Manager, replies: Seq<ReplyView>)
    ensures
        ({
            let step = manager.list_outdated_spec(replies);
            let query = CmdView::query(manager.program@).arg("package"@);
            &&& replies.len() == 0 ==> step == session::ask::<Seq<PackageView>>(
                query.arg("--list-installed"@),
            )
            &&& replies.len() == 1 && replies[0].success ==> step == session::ask::<
                Seq<PackageView>,
            >(query.arg("--list-available"@))
            &&& replies.len() == 2 && replies[0].success && replies[1].success ==> step
                == StepView::Done(
                guix::outdated_spec(
                    guix::parse_columns_spec(replies[0].stdout),
                    guix::parse_columns_spec(replies[1].stdout),
                ),
            )
        }),
{
}

/// The newest record with the name is described, and compared with what is
/// installed.
pub proof fn descriptions_are_compared(
    manager: guix::Manager,
    name: Seq<char>,
    package: PackageView,
    replies: Seq<ReplyView>,
)
    ensures
        ({
            let step = manager.info_spec(name, replies);
            let query = CmdView::query(manager.program@);
            &&& replies.len() == 0 ==> step == session::ask::<PackageView>(
                query.arg("show"@).arg(name),
            )
            &&& replies.len() > 0 && !replies[0].success ==> step == StepView::<PackageView>::Fail(
                ErrorView::NotFound(name),
            )
            &&& replies.len() > 0 && replies[0].success && guix::newest_spec(
                guix::parse_records_spec(replies[0].stdout),
                name,
            ) == Some(package) ==> ({
                &&& replies.len() == 1 ==> step == session::ask::<PackageView>(
                    query.arg("package"@).arg("--list-installed"@),
                )
                &&& replies.len() == 2 && replies[1].success ==> step == StepView::Done(
                    guix::merge_installed_spec(
                        package,
                        guix::parse_columns_spec(replies[1].stdout),
                    ),
                )
            })
        }),
{
}

/// Two columns with a tab between them are a name and a version.
pub proof fn columns_are_read(line: Seq<char>, name: Seq<char>, version: Seq<char>)
    requires
        line.split("\t"@).len() >= 2,
        line.split("\t"@)[0] == name && line.split("\t"@)[1] == version,
        name.trim().len() > 0,
    ensures
        guix::columns_row_spec(line) == Some((name.trim(), version.trim())),
{

}

/// An output of a single line is what that line says, and an empty one says
/// nothing.
pub proof fn single_lines_are_read(line: Seq<char>)
    requires
        form::is_line(line),
    ensures
        ({
            let start = guix::RecordScanView { packages: seq![], current: None, last_key: ""@ };
            let end = guix::record_next_spec(start, line);
            guix::parse_records_spec(form::above(line, ""@)) == end.finish()
        }),
        ({
            let end = guix::RecordScanView { packages: seq![], current: None, last_key: ""@ };
            guix::parse_records_spec(""@) == end.finish()
        }),
{
    let start = guix::RecordScanView { packages: seq![], current: None, last_key: ""@ };
    form::a_line_is_scanned(
        start,
        line,
        ""@,
        |state: guix::RecordScanView, line: Seq<char>| guix::record_next_spec(state, line),
    );
    form::nothing_is_read();
}

/// A record with a name is kept at its end.
pub proof fn records_are_kept(state: guix::RecordScanView, package: PackageView)
    ensures
        state.current == Some(package) && package.name.len() > 0 ==> state.finish()
            == state.packages.push(package),
        state.current == Some(package) && package.name.len() == 0 ==> state.finish()
            == state.packages,
        state.current is None ==> state.finish() == state.packages,
{
}

/// Dependencies are words, without the versions behind them.
pub proof fn dependencies_are_named(value: Seq<char>, name: Seq<char>, version: Seq<char>)
    requires
        !name.contains('@'),
        value.words() == seq![name + "@"@ + version],
    ensures
        guix::dependencies_spec(value) == seq![name],
{
    reveal_strlit("@");
    let word = name + "@"@ + version;
    form::a_piece_is_split_off(name, "@"@, version);
    let pieces = word.split("@"@);
    assert(pieces[0] == name);
    reveal_with_fuel(rows::select, 2);
    assert(seq![word].drop_last() =~= seq![]);
    assert(seq![word].last() == word);
    assert(guix::dependencies_spec(value) =~= seq![name]);
}

/// What fails is told.
pub proof fn failures_are_told(manager: guix::Manager, name: Seq<char>, replies: Seq<ReplyView>)
    ensures
        replies.len() > 0 && !replies[0].success
            ==> manager.list_outdated_spec(replies) == StepView::<
            Seq<PackageView>,
        >::Fail(replies[0].failure()),
        replies.len() == 2 && replies[0].success && !replies[1].success
            ==> manager.list_outdated_spec(replies) == StepView::<Seq<PackageView>>::Fail(
            replies[1].failure(),
        ),
        replies.len() == 2 && replies[0].success && !replies[1].success && guix::newest_spec(
            guix::parse_records_spec(replies[0].stdout),
            name,
        ) is Some ==> manager.info_spec(name, replies) == StepView::<PackageView>::Fail(
            replies[1].failure(),
        ),
{
}

/// A version of digits alone is newer where its number is greater.
pub proof fn numbers_are_newer_by_value(
    a: Seq<char>,
    b: Seq<char>,
    x: PackageView,
    y: PackageView,
)
    requires
        a.len() > 0 && text::all_digits(a),
        b.len() > 0 && text::all_digits(b),
    ensures
        guix::version_newer_spec(a, b) == (text::digits_value(a) > text::digits_value(b)),
        x.version == Some(a) && y.version == Some(b) ==> guix::better_spec(x, y) == (
        text::digits_value(a) > text::digits_value(b)),
        x.version is Some && y.version is None ==> guix::better_spec(x, y),
        x.version is None ==> !guix::better_spec(x, y),
{
    let set = ".-_"@;
    reveal_strlit(".-_");
    lemma_one_chunk(a, set);
    lemma_one_chunk(b, set);
    let none = Seq::<Seq<char>>::empty();
    assert(seq![a] + none =~= seq![a] && seq![b] + none =~= seq![b]);
    versions::numbers_rank_by_value(a, b);
    versions::the_first_difference_decides(a, b, none, none);
}

proof fn lemma_one_chunk(s: Seq<char>, set: Seq<char>)
    requires
        s.len() > 0 && text::all_digits(s),
        forall|i: int| 0 <= i < set.len() ==> !text::is_digit(#[trigger] set[i]),
    ensures
        s.split(set) == seq![s],
{
    text::lemma_find_set(s, set, true);
    let at = text::find_set(s, set, true) as int;
    if at < s.len() {
        assert(text::is_digit(s[at]));
        assert(set.contains(s[at]));
        let i = choose|i: int| 0 <= i < set.len() && set[i] == s[at];
        assert(!text::is_digit(set[i]));
    }
}

/// Of two records with the name the better one counts, and the first of two that
/// are alike.
pub proof fn the_better_record_counts(
    packages: Seq<PackageView>,
    best: PackageView,
    package: PackageView,
)
    requires
        guix::newest_spec(packages, best.name) == Some(best),
    ensures
        package.name == best.name && guix::better_spec(package, best) ==> guix::newest_spec(
            packages.push(package),
            best.name,
        ) == Some(package),
        package.name != best.name || !guix::better_spec(package, best) ==> guix::newest_spec(
            packages.push(package),
            best.name,
        ) == Some(best),
        guix::newest_spec(seq![package], package.name) == Some(package),
{
    assert(packages.push(package).drop_last() =~= packages);
    reveal_with_fuel(guix::newest_spec, 2);
    assert(seq![package].drop_last() =~= seq![] && seq![package].last() == package);
}

/// Each column row is read in its place, and what is installed is compared in its
/// place.
pub proof fn rows_are_compared_in_order(
    line: Seq<char>,
    more: Seq<char>,
    installed: Seq<(Seq<char>, Seq<char>)>,
    available: Seq<(Seq<char>, Seq<char>)>,
    entry: (Seq<char>, Seq<char>),
    package: PackageView,
)
    requires
        form::is_line(line),
    ensures
        guix::columns_row_spec(line) == Some(entry) ==> guix::parse_columns_spec(
            form::above(line, more),
        ) == seq![entry] + guix::parse_columns_spec(more),
        guix::outdated_row_spec(entry, available) == Some(package) ==> guix::outdated_spec(
            installed.push(entry),
            available,
        ) == guix::outdated_spec(installed, available).push(package),
        guix::outdated_row_spec(entry, available) is None ==> guix::outdated_spec(
            installed.push(entry),
            available,
        ) == guix::outdated_spec(installed, available),
{
    form::a_row_is_read(line, more, |line: Seq<char>| guix::columns_row_spec(line));
    assert(installed.push(entry).drop_last() =~= installed);
}

} // verus!

//! What `cabal` says.

use vstd::prelude::*;

use crate::backends::cabal;
use crate::command::CmdView;
use crate::form;
use crate::package::{InstallState, PackageView};
use crate::request::{self, RequestView};
use crate::rows;
use crate::text::{self, Pieces, Text};

verus! {

/// A row `name version` is an installed package.
pub proof fn installed_rows_are_read(
    line: Seq<char>,
    more: Seq<char>,
    name: Seq<char>,
    version: Seq<char>,
)
    requires
        form::is_line(line),
        line.words().len() >= 2,
        line.words()[0] == name && line.words()[1] == version,
        version.begins_digit(),
    ensures
        cabal::parse_simple_list_spec(form::above(line, more)) == seq![
            PackageView {
                name,
                version: Some(version),
                state: InstallState::Installed,
                ..PackageView::blank()
            },
        ] + cabal::parse_simple_list_spec(more),
        cabal::parse_simple_list_spec(""@) == Seq::<PackageView>::empty(),
{
    form::a_row_is_read(line, more, |line: Seq<char>| cabal::simple_row_spec(line));
    form::nothing_is_read();
}

/// Each field of a summary goes where it belongs. What is installed at another
/// version than the available one can be upgraded to it.
pub proof fn summaries_are_read(
    package: PackageView,
    line: Seq<char>,
    key: Seq<char>,
    value: Seq<char>,
    installed: Seq<char>,
)
    requires
        line.trim().cut(":"@) matches Some((k, v)) && k.trim() == key && v.trim() == value,
        value.len() > 0 && !value.begins("["@),
    ensures
        key == "Synopsis"@
            ==> cabal::summary_field_spec(package, line) == (
                PackageView { description: Some(value), ..package }
            ),
        key == "Default available version"@
            ==> cabal::summary_field_spec(package, line) == (
                PackageView { version: Some(value), ..package }
            ),
        key == "Homepage"@
            ==> cabal::summary_field_spec(package, line) == (
                PackageView { homepage: Some(value), ..package }
            ),
        key == "License"@
            ==> cabal::summary_field_spec(package, line) == (
                PackageView { license: Some(value), ..package }
            ),
        (
            key == "Installed versions"@ || key == "Versions installed"@
        ) && cabal::last_version_spec(value) == Some(installed) && package.version is Some
            && package.version != Some(installed)
            ==> cabal::summary_field_spec(package, line) == (
                PackageView {
                    version: Some(installed),
                    latest_version: package.version,
                    state: InstallState::Upgradable,
                    ..package
                }
            ),
        (
            key == "Installed versions"@ || key == "Versions installed"@
        ) && cabal::last_version_spec(value) == Some(installed) && (
            package.version is None || package.version == Some(installed)
        )
            ==> cabal::summary_field_spec(package, line) == (
                PackageView {
                    version: Some(installed),
                    state: InstallState::Installed,
                    ..package
                }
            ),
{
    reveal_strlit("Synopsis");
    reveal_strlit("Default available version");
    reveal_strlit("Installed versions");
    reveal_strlit("Versions installed");
    reveal_strlit("Homepage");
    reveal_strlit("License");
    assert("Synopsis"@.len() == 8);
    assert("Default available version"@.len() == 25);
    assert("Installed versions"@.len() == 18);
    assert("Versions installed"@.len() == 18);
    assert("Homepage"@.len() == 8);
    assert("License"@.len() == 7);
    assert("Synopsis"@[0] == 'S');
    assert("Homepage"@[0] == 'H');
    assert("Installed versions"@[0] == 'I');
    assert("Versions installed"@[0] == 'V');
}

/// A header opens the next package, and any other line belongs to the last one.
pub proof fn headers_open_packages(packages: Seq<PackageView>, line: Seq<char>, header: Seq<char>)
    ensures
        line.without_prefix("* "@) == Some(header) && header.words().len() > 0
            ==> cabal::summary_next_spec(packages, line) == packages.push(
                PackageView {
                    name: header.words()[0],
                    state: InstallState::Available,
                    ..PackageView::blank()
                },
            ),
        line.without_prefix("* "@) is None && packages.len() > 0
            ==> cabal::summary_next_spec(packages, line) == packages.drop_last().push(
                cabal::summary_field_spec(packages.last(), line),
            ),
        line.without_prefix("* "@) is None && packages.len() == 0
            ==> cabal::summary_next_spec(packages, line).len() == 0,
{

}

/// Of versions with commas between them the last one counts.
pub proof fn the_last_version_counts(first: Seq<char>, second: Seq<char>)
    requires
        text::is_word(first) && text::is_word(second),
        !first.contains(',') && !first.contains('('),
        !second.contains(',') && !second.contains('('),
    ensures
        cabal::last_version_spec(second) == Some(second),
        cabal::last_version_spec(first + ", "@ + second) == Some(second),
{
    reveal_strlit("(");
    reveal_strlit(",");
    reveal_strlit(", ");
    reveal_strlit(" ");
    let all = first + ", "@ + second;
    assert forall|i: int| 0 <= i < all.len() implies #[trigger] all[i] != '(' by {
        if i < first.len() {
            assert(all[i] == first[i] && first.contains(first[i]));
        } else if i >= first.len() + 2 {
            assert(all[i] == second[i - first.len() - 2] && second.contains(
                second[i - first.len() - 2],
            ));
        }
    }
    form::a_piece_is_split_off(all, "("@, seq![]);
    form::a_piece_is_split_off(second, "("@, seq![]);
    form::a_piece_is_split_off(second, ","@, seq![]);
    let spaced = " "@ + second;
    assert forall|i: int| 0 <= i < spaced.len() implies #[trigger] spaced[i] != ',' by {
        if i >= 1 {
            assert(spaced[i] == second[i - 1] && second.contains(second[i - 1]));
        }
    }
    assert(all =~= first + ","@ + spaced);
    form::a_piece_is_split_off(first, ","@, spaced);
    form::a_piece_is_split_off(spaced, ","@, seq![]);
    form::a_word_is_a_phrase(second);
    form::a_space_is_trimmed(second);
    reveal_with_fuel(rows::last, 3);
    assert(all.split(","@) =~= seq![first, spaced]);
    assert(seq![first, spaced].last() == spaced);
    assert(seq![second].last() == second);
}

/// Each field of a description goes where it belongs.
pub proof fn fields_go_where_they_belong(g: cabal::GatheredView, value: Seq<char>)
    requires
        value.len() > 0 && !value.begins("["@),
    ensures
        cabal::info_field_spec(g, "Synopsis"@, value) == (
            cabal::GatheredView {
                package: PackageView { description: Some(value), ..g.package },
                ..g
            }
        ),
        g.package.description is None
            ==> cabal::info_field_spec(g, "Description"@, value) == (
                cabal::GatheredView {
                    package: PackageView { description: Some(value), ..g.package },
                    ..g
                }
            ),
        g.package.description is Some ==> cabal::info_field_spec(g, "Description"@, value) == g,
        cabal::info_field_spec(g, "Versions available"@, value) == (
            cabal::GatheredView { available: cabal::last_version_spec(value), ..g }
        ),
        cabal::info_field_spec(g, "Versions installed"@, value) == (
            cabal::GatheredView { installed: cabal::last_version_spec(value), ..g }
        ),
        cabal::info_field_spec(g, "Installed versions"@, value) == (
            cabal::GatheredView { installed: cabal::last_version_spec(value), ..g }
        ),
        cabal::info_field_spec(g, "Homepage"@, value) == (
            cabal::GatheredView {
                package: PackageView { homepage: Some(value), ..g.package },
                ..g
            }
        ),
        cabal::info_field_spec(g, "License"@, value) == (
            cabal::GatheredView {
                package: PackageView { license: Some(value), ..g.package },
                ..g
            }
        ),
        cabal::info_field_spec(g, "Dependencies"@, value) == (
            cabal::GatheredView {
                package: PackageView {
                    dependencies: Some(cabal::dependencies_spec(value)),
                    ..g.package
                },
                ..g
            }
        ),
{
    reveal_strlit("Synopsis");
    reveal_strlit("Description");
    reveal_strlit("Versions available");
    reveal_strlit("Versions installed");
    reveal_strlit("Installed versions");
    reveal_strlit("Homepage");
    reveal_strlit("License");
    reveal_strlit("Dependencies");
    assert("Synopsis"@.len() == 8);
    assert("Description"@.len() == 11);
    assert("Versions available"@.len() == 18);
    assert("Versions installed"@.len() == 18);
    assert("Installed versions"@.len() == 18);
    assert("Homepage"@.len() == 8);
    assert("License"@.len() == 7);
    assert("Dependencies"@.len() == 12);
    assert("Synopsis"@[0] == 'S');
    assert("Homepage"@[0] == 'H');
    assert("Versions available"@[9] == 'a');
    assert("Versions installed"@[9] == 'i');
    assert("Versions available"@[0] == 'V');
    assert("Installed versions"@[0] == 'I');
    assert("Versions installed"@[0] == 'V');
}

/// What is not installed is to be had at the available version; what is
/// installed is up to date where no other version is available, and else can
/// be upgraded to the available one.
pub proof fn versions_are_compared(g: cabal::GatheredView)
    requires
        g.package.latest_version is None,
        g.package.state == InstallState::Available,
    ensures
        ({
            let package = cabal::gathered_spec(g);
            &&& package.name == g.package.name
            &&& package.description == g.package.description
            &&& g.installed is None ==> package.version == g.available && package.state
                == InstallState::Available && package.latest_version is None
            &&& g.installed is Some ==> package.version == g.installed
            &&& g.installed is Some && (g.available is None || g.available == g.installed)
                ==> package.state
                == InstallState::Installed && package.latest_version is None
            &&& g.installed is Some && g.available is Some && g.available != g.installed
                ==> package.state
                == InstallState::Upgradable && package.latest_version == g.available
        }),
{
}

/// Every pin becomes a constraint, and every package is a target.
pub proof fn pins_become_constraints(request: RequestView, version: Seq<char>)
    ensures
        request.version == Some(version)
            ==> cabal::pin_constraint_spec(request) == Some(
                "--constraint="@ + request.name + "=="@ + version,
            ),
        request.version is None ==> cabal::pin_constraint_spec(request) is None,
        forall|cmd: CmdView|
            #[trigger] cabal::with_targets_spec(cmd, seq![request]).args == cmd.args + (
            match request.version {
                Some(version) => seq!["--constraint="@ + request.name + "=="@ + version],
                None => seq![],
            }) + seq![request.name],
{
    assert forall|cmd: CmdView| true implies #[trigger] cabal::with_targets_spec(
        cmd,
        seq![request],
    ).args == cmd.args + (match request.version {
        Some(version) => seq!["--constraint="@ + request.name + "=="@ + version],
        None => seq![],
    }) + seq![request.name] by {
        reveal_with_fuel(rows::select, 2);
        let one = seq![request];
        assert(one.drop_last() =~= seq![]);
        assert(one.last() == request);
        let made = rows::select(one, |q: RequestView| cabal::pin_constraint_spec(q));
        assert(made =~= match request.version {
            Some(version) => seq!["--constraint="@ + request.name + "=="@ + version],
            None => seq![],
        });
        assert(request::names(one) =~= seq![request.name]);
    }
}

/// The first header names what is described; a line of the fields' indent opens
/// a field, and any other line goes on with the last one.
pub proof fn fields_are_gathered(state: cabal::InfoScanView, line: Seq<char>)
    ensures
        ({
            let next = cabal::info_next_spec(state, line);
            let text = line.trim();
            &&& line.without_prefix("* "@) matches Some(header) ==> next.fields == state.fields && (
            state.name is Some ==> next.name == state.name) && (state.name is None
                && header.words().len() > 0 ==> next.name == Some(header.words()[0]))
            &&& line.without_prefix("* "@) is None ==> next.name == state.name
            &&& line.without_prefix("* "@) is None && text.len() == 0 ==> next == state
            &&& line.without_prefix("* "@) is None && text.len() > 0
                && cabal::indent_spec(line) == 4
                ==> (text.cut(":"@) matches Some((key, value)) ==> next.fields == state.fields.push(
                (key.trim(), value.trim()),
            ))
            &&& line.without_prefix("* "@) is None && text.len() > 0
                && cabal::indent_spec(line) != 4
                && state.fields.len() > 0 ==> next.fields == state.fields.drop_last().push(
                (state.fields.last().0, state.fields.last().1 + " "@ + text),
            )
        }),
{
}

/// An output of a single line is what that line says, and an empty one says
/// nothing.
pub proof fn single_lines_are_read(line: Seq<char>)
    requires
        form::is_line(line),
    ensures
        ({
            let start = Seq::<PackageView>::empty();
            let end = cabal::summary_next_spec(start, line);
            cabal::parse_summary_spec(form::above(line, ""@)) == end
        }),
        ({
            let end = Seq::<PackageView>::empty();
            cabal::parse_summary_spec(""@) == end
        }),
{
    let start = Seq::<PackageView>::empty();
    form::a_line_is_scanned(
        start,
        line,
        ""@,
        |state: Seq<PackageView>, line: Seq<char>| cabal::summary_next_spec(state, line),
    );
    form::nothing_is_read();
}

/// A row without a version is no package.
pub proof fn other_rows_say_nothing(line: Seq<char>, more: Seq<char>)
    requires
        form::is_line(line),
        line.words().len() < 2 || !line.words()[1].begins_digit(),
    ensures
        cabal::parse_simple_list_spec(
            form::above(line, more),
        ) == cabal::parse_simple_list_spec(more),
{
    form::a_row_is_read(line, more, |line: Seq<char>| cabal::simple_row_spec(line));
    form::nothing_is_read();
}

/// A description without a header describes nothing; one with a header is the
/// package that it names.
pub proof fn descriptions_have_headers(line: Seq<char>, header: Seq<char>)
    requires
        form::is_line(line),
    ensures
        line.without_prefix("* "@) == Some(header) && header.words().len() > 0
            ==> cabal::parse_info_spec(form::above(line, ""@)) == Some(
            PackageView {
                name: header.words()[0],
                state: InstallState::Available,
                ..PackageView::blank()
            },
        ),
        line.without_prefix("* "@) is None
            ==> cabal::parse_info_spec(form::above(line, ""@)) is None,
        cabal::parse_info_spec(""@) is None,
{
    form::a_line_is_scanned(
        cabal::InfoScanView { name: None, fields: seq![] },
        line,
        ""@,
        |state: cabal::InfoScanView, line: Seq<char>| cabal::info_next_spec(state, line),
    );
    form::nothing_is_read();
}

/// The fields of a description are taken in one after the other.
pub proof fn fields_are_taken_in_order(
    start: cabal::GatheredView,
    fields: Seq<(Seq<char>, Seq<char>)>,
    key: Seq<char>,
    value: Seq<char>,
)
    ensures
        cabal::info_fields_spec(start, fields.push((key, value))) == cabal::info_field_spec(
            cabal::info_fields_spec(start, fields),
            key,
            value,
        ),
        cabal::info_fields_spec(start, seq![]) == start,
{
    assert(fields.push((key, value)).drop_last() =~= fields);
}

/// What was gathered from all lines is the package that is described.
pub proof fn descriptions_are_gathered(
    stdout: Seq<char>,
    end: cabal::InfoScanView,
)
    requires
        end == rows::scan(
            cabal::InfoScanView { name: None, fields: seq![] },
            stdout.lines(),
            |state: cabal::InfoScanView, line: Seq<char>| cabal::info_next_spec(state, line),
        ),
    ensures
        end.name is Some ==> cabal::parse_info_spec(stdout) == Some(
            cabal::gathered_spec(
                cabal::info_fields_spec(
                    cabal::GatheredView {
                        package: PackageView {
                            name: end.name->0,
                            state: InstallState::Available,
                            ..PackageView::blank()
                        },
                        available: None,
                        installed: None,
                    },
                    end.fields,
                ),
            ),
        ),
{
}

/// Four spaces are the indent of a field.
pub proof fn indents_are_counted(text: Seq<char>)
    requires
        form::is_phrase(text),
    ensures
        cabal::indent_spec("    "@ + text) == 4,
        cabal::indent_spec(text) == 0,
{
    reveal_strlit("    ");
    let line = "    "@ + text;
    text::lemma_find_blank(line, false);
    text::lemma_find_blank(text, false);
    let at = text::find_blank(line, false) as int;
    assert(line[4] == text[0]);
    if at < 4 {
        assert(line[at] == ' ');
        assert(text::is_blank(' '));
    }
    assert(at == 4);
    let spaces = line.take(4);
    assert(spaces =~= seq![' ', ' ', ' ', ' ']);
    reveal_with_fuel(text::utf8_len, 6);
    assert(text::utf8_len(seq![' ', ' ', ' ', ' ']) == 4) by {
        let a = seq![' ', ' ', ' ', ' '];
        let b = seq![' ', ' ', ' '];
        let c = seq![' ', ' '];
        let d = seq![' '];
        assert(a.drop_last() =~= b && b.drop_last() =~= c && c.drop_last() =~= d
            && d.drop_last() =~= seq![]);
        assert(a.skip(1) =~= b && b.skip(1) =~= c && c.skip(1) =~= d && d.skip(1) =~= seq![]);
    }
    assert(text::find_blank(text, false) == 0);
    assert(text.take(0) =~= seq![]);
}

/// Dependencies are the first words between commas.
pub proof fn dependencies_are_named(first: Seq<char>, rest: Seq<char>)
    requires
        !first.contains(',') && first.words().len() > 0,
    ensures
        cabal::dependencies_spec(first + ","@ + rest) == seq![first.words()[0]]
            + cabal::dependencies_spec(rest),
{
    reveal_strlit(",");
    let f = |part: Seq<char>| part.words().nth(0);
    form::a_piece_is_split_off(first, ","@, rest);
    reveal_with_fuel(rows::select, 2);
    let one = seq![first];
    assert(one.drop_last() =~= seq![] && one.last() == first);
    assert(rows::select(one, f) =~= seq![first.words()[0]]);
    rows::lemma_select_adds_up(one, rest.split(","@), f);
}

} // verus!

//! What `brew` says.

use vstd::prelude::*;

use crate::backends::brew;
use crate::data::{self, DataView};
use crate::error::ErrorView;
use crate::form;
use crate::package::{InstallState, PackageView};
use crate::rows;
use crate::text::{self, Text};

verus! {

/// A row of a name and its versions is an installed package at the last of
/// them.
pub proof fn installed_rows_are_read(
    line: Seq<char>,
    more: Seq<char>,
    name: Seq<char>,
    version: Seq<char>,
)
    requires
        form::is_line(line),
        line.words().len() > 1,
        line.words()[0] == name,
        line.words().last() == version,
    ensures
        brew::parse_versions_spec(form::above(line, more)) == seq![
            PackageView {
                name,
                version: Some(version),
                state: InstallState::Installed,
                ..PackageView::blank()
            },
        ] + brew::parse_versions_spec(more),
        brew::parse_versions_spec(""@) == Seq::<PackageView>::empty(),
{
    form::a_row_is_read(line, more, |line: Seq<char>| brew::versions_row_spec(line));
    form::nothing_is_read();
}

/// What is installed gives the version, and a stable version other than that is
/// the latest one; what is not installed is to be had at the stable version.
pub proof fn formulae_are_read(
    formula: DataView,
    name: Seq<char>,
    version: Seq<char>,
    stable: Seq<char>,
)
    requires
        formula.get("name"@).text() == Some(name),
        formula.get("versions"@).get("stable"@).text() == Some(stable),
    ensures
        ({
            let installed = formula.get("installed"@).last().get("version"@).text();
            &&& brew::formula_spec(formula) matches Some(package)
            &&& package.name == name
            &&& package.description == formula.get("desc"@).text()
            &&& package.homepage == formula.get("homepage"@).text()
            &&& package.license == formula.get("license"@).text()
            &&& package.dependencies == brew::texts_spec(formula.get("dependencies"@))
            &&& installed is None
                ==> package.version == Some(stable) && package.latest_version is None
                && package.state == InstallState::Available
            &&& installed == Some(stable) ==> package.version == Some(stable)
                && package.latest_version is None && package.state == InstallState::Installed
            &&& installed == Some(version) && version != stable
                ==> package.version == Some(version)
                && package.latest_version == Some(stable)
                    && package.state == InstallState::Installed
        }),
{

}

/// The first formula of a description is the one described.
pub proof fn the_first_formula_is_described(json: DataView, formulae: Seq<DataView>)
    requires
        json.get("formulae"@).items() == Some(formulae),
    ensures
        formulae.len() > 0 ==> brew::parse_info_spec(json) == brew::formula_spec(formulae[0]),
        formulae.len() == 0 ==> brew::parse_info_spec(json) is None,
{

}

/// An outdated formula is at its last installed version and could be at its
/// current one.
pub proof fn outdated_entries_give_both_versions(
    json: DataView,
    front: Seq<DataView>,
    entry: DataView,
    name: Seq<char>,
)
    requires
        json.get("formulae"@).items() == Some(front.push(entry)),
        entry.get("name"@).text() == Some(name),
    ensures
        brew::parse_outdated_spec(json) == rows::select(
            front,
            |formula: DataView| brew::outdated_entry_spec(formula),
        ).push(
            PackageView {
                name,
                version: entry.get("installed_versions"@).last().text(),
                latest_version: entry.get("current_version"@).text(),
                state: InstallState::Upgradable,
                ..PackageView::blank()
            },
        ),
{
    assert(front.push(entry).drop_last() =~= front);
}

/// Formulae are found below their heading, or where there is none; what stands
/// below another heading is not a formula.
pub proof fn results_stand_below_their_heading(state: brew::SearchScanView, line: Seq<char>)
    ensures
        ({
            let next = brew::search_next_spec(state, line);
            let text = line.trim();
            &&& text.without_prefix("==>"@) matches Some(section)
                ==> next.packages == state.packages
                && next.in_formulae == (section.trim() == "Formulae"@)
            &&& text.without_prefix("==>"@) is None && text.len() > 0 && state.in_formulae
                ==> next.packages == state.packages.push(
                PackageView {
                    name: text,
                    state: InstallState::Available,
                    ..PackageView::blank()
                },
            ) && next.in_formulae
            &&& text.without_prefix("==>"@) is None && (text.len() == 0 || !state.in_formulae)
                ==> next == state
        }),
        forall|name: Seq<char>|
            text::is_word(name) && name[0] != '=' ==> #[trigger] brew::parse_search_spec(
                form::above(name, ""@),
            ) == seq![
                PackageView { name, state: InstallState::Available, ..PackageView::blank() },
            ],
{
    assert forall|name: Seq<char>|
        text::is_word(name) && name[0] != '=' implies #[trigger] brew::parse_search_spec(
        form::above(name, ""@),
    ) == seq![
        PackageView { name, state: InstallState::Available, ..PackageView::blank() },
    ] by {
        reveal_strlit("==>");
        form::a_word_is_a_phrase(name);
        assert("==>"@[0] == '=');
        if name.begins("==>"@) {
            assert(name.take(3)[0] == name[0]);
        }
        let f = |state: brew::SearchScanView, line: Seq<char>| brew::search_next_spec(state, line);
        let start = brew::SearchScanView { packages: seq![], in_formulae: true };
        form::a_line_is_scanned(start, name, ""@, f);
        form::nothing_is_read();
        assert(f(start, name).packages =~= seq![
            PackageView { name, state: InstallState::Available, ..PackageView::blank() },
        ]);
    }
}

/// Output that is not JSON is refused with the reason.
pub proof fn output_has_to_be_json(
    what: Seq<char>,
    stdout: Seq<char>,
    json: DataView,
    detail: Seq<char>,
)
    ensures
        data::json_text(stdout) == Ok::<_, Seq<char>>(json)
            ==> brew::parse_json_spec(what, stdout)
            == Ok::<_, ErrorView>(json),
        data::json_text(stdout) == Err::<DataView, _>(detail)
            ==> brew::parse_json_spec(what, stdout)
            == Err::<DataView, _>(ErrorView::Parse { what: "brew "@ + what, detail }),
        json.get("formulae"@).items() is None ==> brew::parse_info_spec(json) is None
            && brew::parse_outdated_spec(json).len() == 0,
{
}

/// The texts of a list are read in their order, and other items are passed over.
pub proof fn texts_are_listed(items: Seq<DataView>, text: Seq<char>)
    ensures
        brew::texts_spec(DataView::List(items.push(DataView::Text(text)))) == Some(
            brew::texts_spec(DataView::List(items))->0.push(text),
        ),
        brew::texts_spec(DataView::List(items.push(DataView::Other))) == brew::texts_spec(
            DataView::List(items),
        ),
        brew::texts_spec(DataView::List(seq![])) == Some(Seq::<Seq<char>>::empty()),
        brew::texts_spec(DataView::Other) is None,
{
    assert(items.push(DataView::Text(text)).drop_last() =~= items);
    assert(items.push(DataView::Other).drop_last() =~= items);
}

} // verus!

//! What `dnf` says.

use vstd::prelude::*;

use crate::backends::dnf;
use crate::form;
use crate::package::{InstallState, PackageView};
use crate::rows;
use crate::text::Text;

verus! {

/// A row of name, version, architecture and summary, with tabs between them, is
/// an installed package.
pub proof fn installed_rows_are_read(
    line: Seq<char>,
    more: Seq<char>,
    name: Seq<char>,
    version: Seq<char>,
    architecture: Seq<char>,
    summary: Seq<char>,
)
    requires
        form::is_line(line),
        line.split("\t"@) == seq![name, version, architecture, summary],
        name.len() > 0 && summary.len() > 0,
    ensures
        dnf::parse_installed_spec(form::above(line, more)) == seq![
            PackageView {
                name,
                version: Some(version),
                architecture: Some(architecture),
                description: Some(summary),
                state: InstallState::Installed,
                ..PackageView::blank()
            },
        ] + dnf::parse_installed_spec(more),
        dnf::parse_installed_spec(""@) == Seq::<PackageView>::empty(),
{
    form::a_row_is_read(line, more, |line: Seq<char>| dnf::installed_row_spec(line));
    form::nothing_is_read();
}

/// A row `name.architecture : summary` is a package to be had.
pub proof fn search_rows_are_read(
    line: Seq<char>,
    more: Seq<char>,
    left: Seq<char>,
    right: Seq<char>,
    name: Seq<char>,
    architecture: Seq<char>,
    summary: Seq<char>,
)
    requires
        form::is_line(line),
        line.cut(":"@) == Some((left, right)),
        left.trim().len() > 0 && !left.trim().has_blank(),
        left.trim().cut_last('.') == Some((name, architecture)),
        right.trim() == summary && summary.len() > 0,
    ensures
        dnf::parse_search_spec(form::above(line, more)) == seq![
            PackageView {
                name,
                architecture: Some(architecture),
                description: Some(summary),
                state: InstallState::Available,
                ..PackageView::blank()
            },
        ] + dnf::parse_search_spec(more),
        dnf::parse_search_spec(""@) == Seq::<PackageView>::empty(),
{
    form::a_row_is_read(line, more, |line: Seq<char>| dnf::search_row_spec(line));
    form::nothing_is_read();
}

/// Three words `name.architecture version repository` are a package that can be
/// upgraded to that version. A name alone is taken together with the next line,
/// and what is obsoleted ends the list.
pub proof fn updates_are_read(
    state: dnf::UpdateScanView,
    line: Seq<char>,
    word: Seq<char>,
    name: Seq<char>,
    architecture: Seq<char>,
    version: Seq<char>,
    repository: Seq<char>,
)
    requires
        !state.done && !line.trim_start().begins("Obsoleting"@),
        word.cut_last('.') == Some((name, architecture)),
        word.has("."@),
    ensures
        state.pending is None && line.words() == seq![word, version, repository] || (
            state.pending == Some(word) && (word + " "@ + line).words() == seq![
                word,
                version,
                repository,
            ]
        )
            ==> dnf::update_next_spec(state, line) == (
                dnf::UpdateScanView {
                    packages: state.packages.push(
                        PackageView {
                            name,
                            architecture: Some(architecture),
                            latest_version: Some(version),
                            origin: Some(repository),
                            state: InstallState::Upgradable,
                            ..PackageView::blank()
                        },
                    ),
                    pending: None,
                    done: false,
                }
            ),
        state.pending is None && line.words() == seq![word]
            ==> dnf::update_next_spec(state, line) == (
                dnf::UpdateScanView { pending: Some(word), ..state }
            ),
        dnf::update_next_spec(
            dnf::UpdateScanView { done: true, ..state },
            line,
        ).packages == state.packages,
{

}

/// What is obsoleted ends the list of updates.
pub proof fn obsoletes_end_the_updates(state: dnf::UpdateScanView, line: Seq<char>)
    requires
        line.trim_start().begins("Obsoleting"@),
    ensures
        dnf::update_next_spec(state, line) == (dnf::UpdateScanView { done: true, ..state }),
{

}

/// Each field of a stanza goes where it belongs.
pub proof fn fields_go_where_they_belong(stanza: dnf::StanzaView, value: Seq<char>)
    ensures
        dnf::field_spec(stanza, "Version"@, value) == (
            dnf::StanzaView { version: Some(value), ..stanza }
        ),
        dnf::field_spec(stanza, "Release"@, value) == (
            dnf::StanzaView { release: Some(value), ..stanza }
        ),
        dnf::field_spec(stanza, "Architecture"@, value) == (
            dnf::StanzaView {
                package: PackageView { architecture: Some(value), ..stanza.package },
                ..stanza
            }
        ),
        dnf::field_spec(stanza, "Arch"@, value) == (
            dnf::StanzaView {
                package: PackageView { architecture: Some(value), ..stanza.package },
                ..stanza
            }
        ),
        dnf::field_spec(stanza, "Summary"@, value) == (
            dnf::StanzaView {
                package: PackageView { description: Some(value), ..stanza.package },
                ..stanza
            }
        ),
        dnf::field_spec(stanza, "URL"@, value) == (
            dnf::StanzaView {
                package: PackageView { homepage: Some(value), ..stanza.package },
                ..stanza
            }
        ),
        dnf::field_spec(stanza, "License"@, value) == (
            dnf::StanzaView {
                package: PackageView { license: Some(value), ..stanza.package },
                ..stanza
            }
        ),
        dnf::field_spec(stanza, "From repo"@, value) == (
            dnf::StanzaView {
                package: PackageView { origin: Some(value), ..stanza.package },
                ..stanza
            }
        ),
        dnf::field_spec(stanza, "From repository"@, value) == (
            dnf::StanzaView {
                package: PackageView { origin: Some(value), ..stanza.package },
                ..stanza
            }
        ),
        value != "@System"@
            ==> dnf::field_spec(stanza, "Repository"@, value) == (
                dnf::StanzaView {
                    package: PackageView { origin: Some(value), ..stanza.package },
                    ..stanza
                }
            ),
        dnf::field_spec(stanza, "Repository"@, "@System"@) == stanza,
{
    reveal_strlit("Version");
    reveal_strlit("Release");
    reveal_strlit("Architecture");
    reveal_strlit("Arch");
    reveal_strlit("Summary");
    reveal_strlit("URL");
    reveal_strlit("License");
    reveal_strlit("From repo");
    reveal_strlit("From repository");
    reveal_strlit("Repository");
    assert("Version"@.len() == 7);
    assert("Release"@.len() == 7);
    assert("Architecture"@.len() == 12);
    assert("Arch"@.len() == 4);
    assert("Summary"@.len() == 7);
    assert("URL"@.len() == 3);
    assert("License"@.len() == 7);
    assert("From repo"@.len() == 9);
    assert("From repository"@.len() == 15);
    assert("Repository"@.len() == 10);
    assert("Version"@[0] == 'V');
    assert("Release"@[0] == 'R');
    assert("Summary"@[0] == 'S');
    assert("License"@[0] == 'L');
}

/// The version of a stanza is written with its release.
pub proof fn versions_have_releases(
    stanza: dnf::StanzaView,
    version: Seq<char>,
    release: Seq<char>,
)
    requires
        stanza.version == Some(version),
    ensures
        stanza.release == Some(release)
            ==> stanza.close() == (
                PackageView { version: Some(version + "-"@ + release), ..stanza.package }
            ),
        stanza.release is None
            ==> stanza.close() == (PackageView { version: Some(version), ..stanza.package }),
{

}

/// A name opens a stanza in the state of its section, a field goes to the stanza
/// that is open, and a line without a key goes on with the summary.
pub proof fn stanzas_are_read(
    state: dnf::InfoScanView,
    line: Seq<char>,
    stanza: dnf::StanzaView,
    key: Seq<char>,
    value: Seq<char>,
)
    requires
        line.cut(":"@) matches Some((k, v)) && k.trim() == key && v.trim() == value,
    ensures
        ({
            let next = dnf::info_next_spec(state, line);
            let heading = line.trim().lower();
            &&& heading.begins("installed package"@) ==> next == (dnf::InfoScanView {
                state: InstallState::Installed,
                ..state
            })
            &&& heading.begins("available package"@) && !heading.begins("installed package"@)
                ==> next
                == (dnf::InfoScanView { state: InstallState::Available, ..state })
            &&& !heading.begins("installed package"@) && !heading.begins("available package"@) ==> ({
                &&& key == "Name"@
                    ==> next.packages == state.finish() && next.state == state.state
                    && next.current == Some(
                    dnf::StanzaView {
                        package: PackageView {
                            name: value,
                            state: state.state,
                            ..PackageView::blank()
                        },
                        version: None,
                        release: None,
                    },
                ) && next.last_key == key
                &&& key.len() > 0 && key != "Name"@ && value.len() > 0
                    && state.current == Some(stanza)
                    ==> next == (dnf::InfoScanView {
                    current: Some(dnf::field_spec(stanza, key, value)),
                    last_key: key,
                    ..state
                })
                &&& key.len() == 0 && state.last_key == "Summary"@ && value.len() > 0
                    && state.current
                    == Some(stanza) && stanza.package.description is Some ==> next.current == Some(
                    dnf::StanzaView {
                        package: PackageView {
                            description: Some(stanza.package.description->0 + " "@ + value),
                            ..stanza.package
                        },
                        ..stanza
                    },
                ) && next.packages == state.packages
                &&& key.len() == 0 && state.last_key != "Summary"@ ==> next == state
            })
        }),
        state.current == Some(stanza) && stanza.package.name.len() > 0 ==> state.finish()
            == state.packages.push(stanza.close()),
        state.current is None ==> state.finish() == state.packages,
{
    reveal_strlit("Name");
    assert("Name"@.len() == 4);
}

/// Of an installed stanza and one to be had, the installed one is described; it
/// can be upgraded where the other has another version.
pub proof fn stanzas_are_compared(local: PackageView, remote: PackageView)
    requires
        local.state == InstallState::Installed,
        remote.state == InstallState::Available,
    ensures
        remote.version is Some && remote.version != local.version ==> dnf::choose_stanza_spec(
            seq![local, remote],
        ) == Some(
            PackageView {
                latest_version: remote.version,
                state: InstallState::Upgradable,
                ..local
            },
        ),
        remote.version == local.version || remote.version is None ==> dnf::choose_stanza_spec(
            seq![local, remote],
        ) == Some(local),
        dnf::choose_stanza_spec(seq![local]) == Some(local),
        dnf::choose_stanza_spec(seq![remote]) == Some(remote),
        dnf::choose_stanza_spec(seq![]) is None,
{
    let here = |p: PackageView| p.state == InstallState::Installed;
    let newer = |p: PackageView|
        p.state == InstallState::Available && p.version is Some && p.version != local.version;
    rows::first_is_at(seq![local, remote], here, 0);
    rows::first_is_at(seq![local], here, 0);
    rows::first_is_nowhere(seq![remote], here);
    rows::first_is_nowhere(seq![local], newer);
    if remote.version is Some && remote.version != local.version {
        rows::first_is_at(seq![local, remote], newer, 1);
    } else {
        rows::first_is_nowhere(seq![local, remote], newer);
    }
}

/// An output of a single line is what that line says, and an empty one says
/// nothing.
pub proof fn single_lines_are_read(line: Seq<char>)
    requires
        form::is_line(line),
    ensures
        ({
            let start = dnf::InfoScanView {
                packages: seq![],
                state: InstallState::Unknown,
                current: None,
                last_key: seq![],
            };
            let end = dnf::info_next_spec(start, line);
            dnf::parse_info_spec(form::above(line, ""@)) == end.finish()
        }),
        ({
            let end = dnf::InfoScanView {
                packages: seq![],
                state: InstallState::Unknown,
                current: None,
                last_key: seq![],
            };
            dnf::parse_info_spec(""@) == end.finish()
        }),
{
    let start = dnf::InfoScanView {
        packages: seq![],
        state: InstallState::Unknown,
        current: None,
        last_key: seq![],
    };
    form::a_line_is_scanned(
        start,
        line,
        ""@,
        |state: dnf::InfoScanView, line: Seq<char>| dnf::info_next_spec(state, line),
    );
    form::nothing_is_read();
}

/// An output of a single line is what that line says, and an empty one says
/// nothing.
pub proof fn single_updates_are_read(line: Seq<char>)
    requires
        form::is_line(line),
    ensures
        ({
            let start = dnf::UpdateScanView { packages: seq![], pending: None, done: false };
            let end = dnf::update_next_spec(start, line);
            dnf::parse_updates_spec(form::above(line, ""@)) == end.packages
        }),
        ({
            let end = dnf::UpdateScanView { packages: seq![], pending: None, done: false };
            dnf::parse_updates_spec(""@) == end.packages
        }),
{
    let start = dnf::UpdateScanView { packages: seq![], pending: None, done: false };
    form::a_line_is_scanned(
        start,
        line,
        ""@,
        |state: dnf::UpdateScanView, line: Seq<char>| dnf::update_next_spec(state, line),
    );
    form::nothing_is_read();
}

/// A row that names no single word is no package.
pub proof fn other_rows_say_nothing(
    line: Seq<char>,
    more: Seq<char>,
    left: Seq<char>,
    right: Seq<char>,
)
    requires
        form::is_line(line),
        line.cut(":"@) == Some((left, right)),
        left.trim().len() == 0 || left.trim().has_blank() || left.trim().cut_last('.') is None,
    ensures
        dnf::parse_search_spec(form::above(line, more)) == dnf::parse_search_spec(more),
{
    form::a_row_is_read(line, more, |line: Seq<char>| dnf::search_row_spec(line));
    form::nothing_is_read();
}

/// A row with too few columns is no package.
pub proof fn short_rows_say_nothing(line: Seq<char>, more: Seq<char>)
    requires
        form::is_line(line),
        line.split("\t"@).len() < 4 || line.split("\t"@)[0].len() == 0,
    ensures
        dnf::parse_installed_spec(form::above(line, more)) == dnf::parse_installed_spec(more),
{
    form::a_row_is_read(line, more, |line: Seq<char>| dnf::installed_row_spec(line));
    form::nothing_is_read();
}

} // verus!

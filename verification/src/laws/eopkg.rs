//! What the stanzas of `eopkg info` and the rows of its listings say.

use vstd::prelude::*;

use crate::backends::eopkg::SectionView;
use crate::backends::eopkg;
use crate::form;
use crate::package::{InstallState, PackageView};
use crate::rows;
use crate::text::{self, Text};

verus! {

/// What a stanza says of a package's name, version and release.
pub open spec fn identity(name: Seq<char>, version: Seq<char>, release: Seq<char>) -> Seq<char> {
    name + ", version: "@ + version + ", release: "@ + release
}

/// Whether a text can be one of the parts of an identity.
pub open spec fn is_part(s: Seq<char>) -> bool {
    text::is_word(s) && !s.contains(',') && !s.contains(':')
}

/// An identity is read as the name, and the version with its release.
pub proof fn identities_are_read(name: Seq<char>, version: Seq<char>, release: Seq<char>)
    requires
        is_part(name),
        is_part(version),
        is_part(release),
    ensures
        eopkg::identity_spec(identity(name, version, release)) == (
            name,
            Some(version + "-"@ + release),
        ),
{
    reveal_strlit(", version: ");
    reveal_strlit(", release: ");
    reveal_strlit(",");
    reveal_strlit(":");
    reveal_strlit(" ");
    reveal_strlit("version");
    reveal_strlit("release");
    reveal_strlit(" version");
    reveal_strlit(" release");
    let comma = ","@;
    assert(comma =~= seq![',']);
    assert(":"@ =~= seq![':']);
    let second = " version"@ + ":"@ + (" "@ + version);
    let third = " release"@ + ":"@ + (" "@ + release);
    let s = identity(name, version, release);
    assert(s =~= name + comma + (second + comma + third));
    assert(!second.contains(',')) by {
        assert forall|i: int| 0 <= i < second.len() implies #[trigger] second[i] != ',' by {
            if i >= 10 {
                assert(second[i] == version[i - 10]);
                assert(version.contains(version[i - 10]));
            }
        }
    }
    assert(!third.contains(',')) by {
        assert forall|i: int| 0 <= i < third.len() implies #[trigger] third[i] != ',' by {
            if i >= 10 {
                assert(third[i] == release[i - 10]);
                assert(release.contains(release[i - 10]));
            }
        }
    }
    form::a_piece_is_split_off(name, comma, second + comma + third);
    form::a_piece_is_split_off(second, comma, third);
    form::a_piece_is_split_off(third, comma, seq![]);
    let parts = s.split(comma);
    assert(parts =~= seq![name, second, third]);
    let rest = parts.skip(1);
    assert(rest =~= seq![second, third]);
    form::a_cut_is_found(" version"@, ":"@, " "@ + version);
    form::a_cut_is_found(" release"@, ":"@, " "@ + release);
    assert(" version"@ =~= " "@ + "version"@);
    assert(" release"@ =~= " "@ + "release"@);
    form::a_space_is_trimmed("version"@);
    form::a_space_is_trimmed("release"@);
    form::a_word_is_a_phrase(name);
    form::a_word_is_a_phrase(version);
    form::a_word_is_a_phrase(release);
    form::a_space_is_trimmed(version);
    form::a_space_is_trimmed(release);
    reveal_with_fuel(eopkg::attribute_spec, 3);
    assert(rest.drop_last() =~= seq![second]);
    assert("version"@[0] != "release"@[0]);
    assert(eopkg::attribute_spec(rest, "release"@) == Some(release));
    assert(eopkg::attribute_spec(rest, "version"@) == Some(version));
}

/// The stanza of an installed package and that of a repository's: the same
/// version in both is up to date, and another one in the repository is the one
/// to upgrade to.
pub proof fn stanzas_are_compared(local: SectionView, remote: SectionView)
    requires
        local.installed && local.package.name.len() > 0,
        !remote.installed && remote.package.name.len() > 0,
        local.package.latest_version is None,
    ensures
        forall|sections: Seq<SectionView>|
            sections == seq![local, remote] || sections == seq![remote, local] ==> ({
                &&& #[trigger] eopkg::merge_sections_spec(sections) matches Some(package)
                &&& package.name == local.package.name
                &&& package.version == local.package.version
                &&& package.origin == remote.repo
                &&& package.description == local.package.description
                &&& local.package.version == remote.package.version ==> package.state
                    == InstallState::Installed && package.latest_version is None
                &&& remote.package.version is Some && local.package.version
                    != remote.package.version ==> package.state == InstallState::Upgradable
                    && package.latest_version == remote.package.version
                &&& local.package.download_size is Some ==> package.download_size
                    == local.package.download_size
                &&& local.package.download_size is None ==> package.download_size
                    == remote.package.download_size
            }),
        eopkg::merge_sections_spec(seq![local]) == Some(
            PackageView { state: InstallState::Installed, ..local.package },
        ),
        eopkg::merge_sections_spec(seq![remote]) == Some(
            PackageView { state: InstallState::Available, origin: remote.repo, ..remote.package },
        ),
{
    let there = |s: SectionView| s.installed == true && s.package.name.len() > 0;
    let offered = |s: SectionView| s.installed == false && s.package.name.len() > 0;
    rows::first_is_at(seq![local, remote], there, 0);
    rows::first_is_at(seq![local, remote], offered, 1);
    rows::first_is_at(seq![remote, local], there, 1);
    rows::first_is_at(seq![remote, local], offered, 0);
    rows::first_is_at(seq![local], there, 0);
    rows::first_is_nowhere(seq![local], offered);
    rows::first_is_at(seq![remote], offered, 0);
    rows::first_is_nowhere(seq![remote], there);
}

/// An output with a stanza for the installed package and one for that of a
/// repository: where both give one version, it is up to date; where they
/// differ, it can be upgraded to that of the repository.
pub proof fn outputs_tell_what_is_outdated(
    name: Seq<char>,
    version: Seq<char>,
    release: Seq<char>,
    repository: Seq<char>,
    other_version: Seq<char>,
    other_release: Seq<char>,
)
    requires
        is_part(name),
        is_part(version),
        is_part(release),
        text::is_word(repository),
        is_part(other_version),
        is_part(other_release),
    ensures
        ({
            let installed = form::field("Name"@, identity(name, version, release));
            let found = form::field("Name"@, identity(name, other_version, other_release));
            let here = version + "-"@ + release;
            let there = other_version + "-"@ + other_release;
            let output = form::above(
                "Installed package:"@,
                form::above(
                    installed,
                    form::above(
                        "Package found in "@ + repository + " repository:"@,
                        form::above(found, ""@),
                    ),
                ),
            );
            eopkg::parse_info_spec(output) == Some(
                PackageView {
                    name,
                    version: Some(here),
                    origin: Some(repository),
                    state: if here == there {
                        InstallState::Installed
                    } else {
                        InstallState::Upgradable
                    },
                    latest_version: if here == there {
                        None
                    } else {
                        Some(there)
                    },
                    ..PackageView::blank()
                },
            )
        }),
{
    let f = |state: Seq<SectionView>, line: Seq<char>| eopkg::info_next_spec(state, line);
    let header = "Installed package:"@;
    let other = "Package found in "@ + repository + " repository:"@;
    let first = form::field("Name"@, identity(name, version, release));
    let second = form::field("Name"@, identity(name, other_version, other_release));
    lemma_headers(repository);
    lemma_named(PackageView::blank(), name, version, release);
    lemma_named(PackageView::blank(), name, other_version, other_release);
    let empty = Seq::<SectionView>::empty();
    let a = f(empty, header);
    let b = f(a, first);
    let c = f(b, other);
    let d = f(c, second);
    form::a_line_is_scanned(
        empty,
        header,
        form::above(first, form::above(other, form::above(second, ""@))),
        f,
    );
    form::a_line_is_scanned(a, first, form::above(other, form::above(second, ""@)), f);
    form::a_line_is_scanned(b, other, form::above(second, ""@), f);
    form::a_line_is_scanned(c, second, ""@, f);
    form::nothing_is_read();
    let local = SectionView {
        installed: true,
        repo: None,
        package: PackageView {
            name,
            version: Some(version + "-"@ + release),
            ..PackageView::blank()
        },
    };
    let remote = SectionView {
        installed: false,
        repo: Some(repository),
        package: PackageView {
            name,
            version: Some(other_version + "-"@ + other_release),
            ..PackageView::blank()
        },
    };
    assert(a.drop_last() =~= empty);
    assert(b =~= seq![local]);
    assert(c.drop_last() =~= b);
    assert(d =~= seq![local, remote]);
    stanzas_are_compared(local, remote);
}

proof fn lemma_headers(repository: Seq<char>)
    requires
        text::is_word(repository),
    ensures
        form::is_line("Installed package:"@),
        form::is_line("Package found in "@ + repository + " repository:"@),
        eopkg::section_header_spec("Installed package:"@) == Some(
            SectionView { installed: true, repo: None, package: PackageView::blank() },
        ),
        eopkg::section_header_spec("Package found in "@ + repository + " repository:"@) == Some(
            SectionView {
                installed: false,
                repo: Some(repository),
                package: PackageView::blank(),
            },
        ),
{
    reveal_strlit("Installed package:");
    reveal_strlit("Package found in ");
    reveal_strlit(" repository:");
    form::a_phrase_is_a_line("Installed package:"@);
    let prefix = "Package found in "@;
    let suffix = " repository:"@;
    let line = prefix + repository + suffix;
    assert(line =~= prefix + (repository + suffix));
    form::a_word_is_a_phrase(repository);
    assert forall|i: int| 0 <= i < line.len() implies #[trigger] line[i] != '\n' by {
        if prefix.len() <= i < prefix.len() + repository.len() {
            assert(line[i] == repository[i - prefix.len()]);
            assert(repository.contains(repository[i - prefix.len()]));
        }
    }
    form::a_phrase_is_a_line(line);
    form::a_prefix_is_found(prefix, repository + suffix);
    form::a_suffix_is_found(repository, suffix);
    assert(line[0] != "Installed package:"@[0]);
}

proof fn lemma_named(
    package: PackageView,
    name: Seq<char>,
    version: Seq<char>,
    release: Seq<char>,
)
    requires
        is_part(name),
        is_part(version),
        is_part(release),
    ensures
        ({
            let line = form::field("Name"@, identity(name, version, release));
            &&& form::is_line(line)
            &&& eopkg::section_header_spec(line) is None
            &&& eopkg::field_spec(package, line) == (PackageView {
                name,
                version: Some(version + "-"@ + release),
                ..package
            })
        }),
{
    let value = identity(name, version, release);
    let line = form::field("Name"@, value);
    identities_are_read(name, version, release);
    reveal_strlit("Name");
    form::a_word_is_a_phrase(name);
    form::a_word_is_a_phrase(version);
    form::a_word_is_a_phrase(release);
    assert(form::is_phrase(value)) by {
        reveal_strlit(", version: ");
        reveal_strlit(", release: ");
        let a = name.len() as int;
        let b = a + 11 + version.len();
        assert(value[0] == name[0]);
        assert(value.last() == release.last());
        assert forall|i: int| 0 <= i < value.len() implies #[trigger] value[i] != '\n' by {
            if i < a {
                assert(value[i] == name[i] && name.contains(name[i]));
            } else if a + 11 <= i < b {
                assert(value[i] == version[i - a - 11] && version.contains(version[i - a - 11]));
            } else if i >= b + 11 {
                assert(value[i] == release[i - b - 11] && release.contains(release[i - b - 11]));
            }
        }
    }
    form::a_field_is_cut("Name"@, value);
    reveal_strlit("Installed package:");
    reveal_strlit("Package found in ");
    assert(line[0] == 'N');
    assert(line.take(17)[0] == line[0] || line.len() < 17);
    assert("Package found in "@.len() == 17);
}

/// Each field of a stanza goes where it belongs.
pub proof fn fields_go_where_they_belong(
    package: PackageView,
    line: Seq<char>,
    key: Seq<char>,
    value: Seq<char>,
)
    requires
        line.cut(":"@) matches Some((k, v)) && k.trim() == key && v.trim() == value,
        value.len() > 0,
    ensures
        key == "Summary"@
            ==> eopkg::field_spec(package, line) == (
                PackageView { description: Some(value), ..package }
            ),
        key == "Licenses"@
            ==> eopkg::field_spec(package, line) == (
                PackageView { license: Some(value), ..package }
            ),
        key == "Architecture"@
            ==> eopkg::field_spec(package, line) == (
                PackageView { architecture: Some(value), ..package }
            ),
        key == "Dependencies"@
            ==> eopkg::field_spec(package, line) == (
                PackageView { dependencies: eopkg::dependencies_spec(value), ..package }
            ),
        key == "Installed Size"@
            ==> eopkg::field_spec(package, line) == (
                PackageView { installed_size: eopkg::parse_size_spec(value), ..package }
            ),
        key == "Package Size"@
            ==> eopkg::field_spec(package, line) == (
                PackageView { download_size: eopkg::parse_size_spec(value), ..package }
            ),
        key == "Description"@
            ==> eopkg::field_spec(package, line) == (
                PackageView {
                    description: if package.description is None { Some(value) } else {
                        package.description
                    },
                    ..package
                }
            ),
{
    reveal_strlit("Summary");
    reveal_strlit("Licenses");
    reveal_strlit("Architecture");
    reveal_strlit("Dependencies");
    reveal_strlit("Installed Size");
    reveal_strlit("Package Size");
    reveal_strlit("Description");
    reveal_strlit("Name");
    assert("Summary"@.len() == 7);
    assert("Licenses"@.len() == 8);
    assert("Architecture"@.len() == 12);
    assert("Dependencies"@.len() == 12);
    assert("Installed Size"@.len() == 14);
    assert("Package Size"@.len() == 12);
    assert("Description"@.len() == 11);
    assert("Name"@.len() == 4);
    assert("Architecture"@[0] == 'A');
    assert("Dependencies"@[0] == 'D');
    assert("Package Size"@[0] == 'P');
}

/// A row `name - summary` is a package with that name and that description, in
/// the state of the listing.
pub proof fn listings_are_read(
    name: Seq<char>,
    summary: Seq<char>,
    more: Seq<char>,
    state: InstallState,
)
    requires
        text::is_word(name),
        !name.contains(' '),
        form::is_phrase(summary),
    ensures
        eopkg::parse_listing_spec(form::above((name + " - "@ + summary), more), state) == seq![
            PackageView {
                name: name,
                description: Some(summary),
                state: state,
                ..PackageView::blank()
            },
        ] + eopkg::parse_listing_spec(more, state),
        eopkg::parse_listing_spec(""@, state) == Seq::<PackageView>::empty(),
{
    reveal_strlit(" - ");
    let line = name + " - "@ + summary;
    form::a_word_is_a_phrase(name);
    form::a_phrase_is_a_line(summary);
    form::a_cut_is_found(name, " - "@, summary);
    assert forall|i: int| 0 <= i < line.len() implies #[trigger] line[i] != '\n' by {
        if i < name.len() {
            assert(line[i] == name[i] && name.contains(name[i]));
        } else if i >= name.len() + 3 {
            assert(line[i] == summary[i - name.len() - 3] && summary.contains(
                summary[i - name.len() - 3],
            ));
        }
    }
    assert(line.last() == summary.last());
    form::a_phrase_is_a_line(line);
    form::a_row_is_read(
        (name + " - "@ + summary),
        more,
        |line: Seq<char>| eopkg::listing_row_spec(line, state),
    );
    form::nothing_is_read();
}

/// An output of a single line is what that line says, and an empty one says
/// nothing.
pub proof fn single_lines_are_read(line: Seq<char>)
    requires
        form::is_line(line),
    ensures
        ({
            let start = Seq::<SectionView>::empty();
            let end = eopkg::info_next_spec(start, line);
            eopkg::parse_info_spec(form::above(line, ""@)) == eopkg::merge_sections_spec(end)
        }),
        ({
            let end = Seq::<SectionView>::empty();
            eopkg::parse_info_spec(""@) == eopkg::merge_sections_spec(end)
        }),
{
    let start = Seq::<SectionView>::empty();
    form::a_line_is_scanned(
        start,
        line,
        ""@,
        |state: Seq<SectionView>, line: Seq<char>| eopkg::info_next_spec(state, line),
    );
    form::nothing_is_read();
}

/// A row that names no single word is no package.
pub proof fn other_rows_say_nothing(line: Seq<char>, more: Seq<char>, state: InstallState)
    requires
        form::is_line(line),
        line.cut(" - "@) is None || (
            line.cut(" - "@)->0
        ).0.trim().len() == 0 || (line.cut(" - "@)->0).0.trim().has_blank(),
    ensures
        eopkg::parse_listing_spec(
            form::above(line, more),
            state,
        ) == eopkg::parse_listing_spec(more, state),
{
    form::a_row_is_read(line, more, |line: Seq<char>| eopkg::listing_row_spec(line, state));
    form::nothing_is_read();
}

/// A line belongs to the stanza that is open, and a header opens the next one.
pub proof fn stanzas_are_opened(
    sections: Seq<SectionView>,
    line: Seq<char>,
    section: SectionView,
)
    ensures
        eopkg::section_header_spec(line) == Some(section)
            ==> eopkg::info_next_spec(sections, line)
            == sections.push(section),
        eopkg::section_header_spec(line) is None && sections.len() > 0 ==> eopkg::info_next_spec(
            sections,
            line,
        ) == sections.drop_last().push(
            SectionView {
                package: eopkg::field_spec(sections.last().package, line),
                ..sections.last()
            },
        ),
        eopkg::section_header_spec(line) is None && sections.len() == 0 ==> eopkg::info_next_spec(
            sections,
            line,
        ).len() == 0,
        eopkg::merge_sections_spec(seq![]) is None,
{
}

/// Dependencies are words, without the commas behind them.
pub proof fn dependencies_are_named(value: Seq<char>)
    ensures
        value.words().len() == 0 ==> eopkg::dependencies_spec(value) is None,
        value.words().len() > 0 ==> (eopkg::dependencies_spec(value) matches Some(names)
            && names.len() == value.words().len() && forall|i: int|
            0 <= i < names.len() ==> #[trigger] names[i] == value.words()[i].trim_back(","@)),
{
    lemma_all_are_named(value.words());
}

proof fn lemma_all_are_named(words: Seq<Seq<char>>)
    ensures
        ({
            let names = rows::select(words, |word: Seq<char>| Some(word.trim_back(","@)));
            &&& names.len() == words.len()
            &&& forall|i: int|
                0 <= i < names.len() ==> #[trigger] names[i] == words[i].trim_back(","@)
        }),
    decreases words.len(),
{
    if words.len() > 0 {
        lemma_all_are_named(words.drop_last());
    }
}

} // verus!

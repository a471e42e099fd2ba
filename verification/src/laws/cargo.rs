//! What `cargo` says, and what is upgraded.

use vstd::prelude::*;

use crate::backends::cargo;
use crate::command::CmdView;
use crate::error::ErrorView;
use crate::form;
use crate::package::{InstallState, PackageView};
use crate::request::{self, OpContext, RequestView};
use crate::session::{self, ActionView, ReplyView, StepView};
use crate::text::{self, Text};

verus! {

/// A header `name vversion:` is a crate installed from the registry, and `name
/// vversion (source):` one from that source.
pub proof fn installed_headers_are_read(
    line: Seq<char>,
    more: Seq<char>,
    name: Seq<char>,
    version: Seq<char>,
)
    requires
        form::is_line(line),
        line == form::spaced(seq![name, "v"@ + version]) + ":"@,
        text::is_word(name) && text::is_word("v"@ + version),
        form::spaced(seq![name, "v"@ + version]).cut(" ("@) is None,
    ensures
        cargo::parse_install_list_spec(form::above(line, more)) == seq![
            PackageView {
                name,
                version: Some(version),
                state: InstallState::Installed,
                ..PackageView::blank()
            },
        ] + cargo::parse_install_list_spec(more),
        cargo::parse_install_list_spec(""@) == Seq::<PackageView>::empty(),
{
    reveal_strlit("v");
    reveal_strlit(" (");
    reveal_strlit(" ");
    reveal_strlit(":");
    let header = form::spaced(seq![name, "v"@ + version]);
    form::spaced_words(seq![name, "v"@ + version]);
    form::spaced_two(name, "v"@ + version);
    assert(line[0] == header[0]);
    form::a_suffix_is_found(header, ":"@);
    form::a_prefix_is_found("v"@, version);
    form::a_row_is_read(line, more, |line: Seq<char>| cargo::header_spec(line));
    form::nothing_is_read();
}

/// What stands in brackets at the end of a header is where the crate was
/// installed from.
pub proof fn sources_are_told(
    line: Seq<char>,
    header: Seq<char>,
    head: Seq<char>,
    source: Seq<char>,
    version: Seq<char>,
)
    requires
        !line.begins_blank(),
        line.without_suffix(":"@) == Some(header),
        header.cut(" ("@) == Some((head, source + ")"@)),
        header.words().len() >= 2,
        header.words()[1] == "v"@ + version,
    ensures
        cargo::header_spec(line) == Some(
            PackageView {
                name: header.words()[0],
                version: Some(version),
                origin: Some(source),
                state: InstallState::Installed,
                ..PackageView::blank()
            },
        ),
{
    form::a_suffix_is_found(source, ")"@);
    form::a_prefix_is_found("v"@, version);
}

/// A row `name = "version"    # description` is a crate to be had.
pub proof fn search_rows_are_read(
    line: Seq<char>,
    more: Seq<char>,
    spec: Seq<char>,
    name: Seq<char>,
    left: Seq<char>,
    right: Seq<char>,
    version: Seq<char>,
    description: Seq<char>,
)
    requires
        form::is_line(line),
        line.cut("#"@) matches Some((s, d)) && s == spec && d.trim() == description,
        description.len() > 0,
        spec.cut("="@) == Some((left, right)),
        left.trim() == name && text::is_word(name),
        right.trim() == "\""@ + version + "\""@,
    ensures
        cargo::parse_search_spec(form::above(line, more)) == seq![
            PackageView {
                name,
                version: Some(version),
                description: Some(description),
                state: InstallState::Available,
                ..PackageView::blank()
            },
        ] + cargo::parse_search_spec(more),
        cargo::parse_search_spec(""@) == Seq::<PackageView>::empty(),
{
    form::a_word_is_a_phrase(name);
    assert(right.trim() =~= "\""@ + (version + "\""@));
    form::a_prefix_is_found("\""@, version + "\""@);
    form::a_suffix_is_found(version, "\""@);
    form::a_row_is_read(line, more, |line: Seq<char>| cargo::search_row_spec(line));
    form::nothing_is_read();
}

/// What is installed at another version than the one to be had keeps its
/// version, and the one to be had is the latest.
pub proof fn installed_versions_are_compared(package: PackageView, local: PackageView)
    ensures
        cargo::merge_spec(package, None) == package,
        local.version is Some && local.version != package.version
            ==> cargo::merge_spec(package, Some(local)) == (
                PackageView {
                    version: local.version,
                    latest_version: package.version,
                    state: InstallState::Installed,
                    ..package
                }
            ),
        local.version == package.version
            ==> cargo::merge_spec(package, Some(local)) == (
                PackageView { state: InstallState::Installed, ..package }
            ),
{

}

/// A crate is looked for in the registry, then among what is installed.
pub proof fn descriptions_are_compared(
    manager: cargo::Manager,
    name: Seq<char>,
    package: PackageView,
    replies: Seq<ReplyView>,
)
    ensures
        replies.len() == 0 ==> manager.info_spec(name, replies) == session::ask::<PackageView>(
            CmdView::query(manager.program@).arg("search"@).arg(name),
        ),
        replies.len() > 0 && replies[0].success && session::called(
            cargo::parse_search_spec(replies[0].stdout),
            name,
        ) is None ==> manager.info_spec(name, replies) == StepView::<PackageView>::Fail(
            ErrorView::NotFound(name),
        ),
        replies.len() > 0 && replies[0].success && session::called(
            cargo::parse_search_spec(replies[0].stdout),
            name,
        ) == Some(package) ==> ({
            &&& replies.len() == 1 ==> manager.info_spec(name, replies) == session::ask::<PackageView>(
                CmdView::query(manager.program@).arg("install"@).arg("--list"@),
            )
            &&& replies.len() == 2 && replies[1].success ==> manager.info_spec(name, replies)
                == StepView::Done(
                cargo::merge_spec(
                    package,
                    session::called(
                        cargo::parse_install_list_spec(replies[1].stdout),
                        package.name,
                    ),
                ),
            )
        }),
{
}

/// Everything that came from the registry is installed anew; where nothing
/// did, nothing is done.
pub proof fn upgrading_covers_the_registry(
    manager: cargo::Manager,
    ctx: OpContext,
    replies: Seq<ReplyView>,
    i: int,
)
    requires
        !ctx.dry_run,
        replies.len() == 1 && replies[0].success,
    ensures
        ({
            let step = manager.upgrade_spec(seq![], ctx, replies);
            let installed = cargo::parse_install_list_spec(replies[0].stdout);
            &&& 0 <= i < installed.len() && installed[i].origin is None ==> ({
                &&& step matches StepView::Act(ActionView::Run(command))
                &&& command.program == manager.program@
                &&& command.args[0] == "install"@
                &&& command.args.contains(installed[i].name)
            })
            &&& step is Done ==> forall|j: int|
                0 <= j < installed.len() ==> (#[trigger] installed[j]).origin is Some
        }),
{
    let installed = cargo::parse_install_list_spec(replies[0].stdout);
    let targets = cargo::registry_names_spec(installed);
    let step = manager.upgrade_spec(seq![], ctx, replies);
    if 0 <= i < installed.len() && installed[i].origin is None {
        cargo::other_sources_stay(installed, installed[i].name);
        let j = choose|j: int| 0 <= j < targets.len() && targets[j] == installed[i].name;
        let command = CmdView::new(manager.program@).arg("install"@).args(targets);
        assert(replies.skip(1).len() == 0);
        assert(step == StepView::<()>::Act(ActionView::Run(command)));
        assert(command.args[j + 1] == installed[i].name);
    }
    if step is Done {
        assert forall|j: int| 0 <= j < installed.len() implies (#[trigger] installed[j]).origin is Some by {
            if installed[j].origin is None {
                cargo::other_sources_stay(installed, installed[j].name);
                assert(targets.len() > 0);
                assert(replies.skip(1).len() == 0);
            }
        }
    }
}

/// What is named is installed anew, at its version where it is pinned.
pub proof fn upgrading_takes_what_is_named(
    manager: cargo::Manager,
    packages: Seq<RequestView>,
    ctx: OpContext,
)
    requires
        packages.len() > 0,
    ensures
        ctx.dry_run ==> manager.upgrade_spec(packages, ctx, seq![]) is Fail,
        !ctx.dry_run ==> manager.upgrade_spec(packages, ctx, seq![]) == StepView::<()>::Act(
            ActionView::Run(
                CmdView::new(manager.program@).arg("install"@).args(
                    packages.map_values(|q: RequestView| q.pinned("@"@)),
                ),
            ),
        ),
{
    assert(request::pinned_all(packages, "@"@) =~= packages.map_values(
        |q: RequestView| q.pinned("@"@),
    ));
}

/// What is installed at an unknown version is installed.
pub proof fn unknown_versions_are_installed(package: PackageView, local: PackageView)
    requires
        local.version is None,
    ensures
        cargo::merge_spec(package, Some(local)) == (
            PackageView { state: InstallState::Installed, ..package }
        ),
{
}

/// A row without a name is no crate.
pub proof fn other_rows_say_nothing(
    line: Seq<char>,
    more: Seq<char>,
    spec: Seq<char>,
    left: Seq<char>,
    right: Seq<char>,
)
    requires
        form::is_line(line),
        spec == match line.cut("#"@) { Some((s, _)) => s, None => line },
        spec.cut("="@) == Some((left, right)),
        left.trim().len() == 0 || left.trim().has_blank(),
    ensures
        cargo::parse_search_spec(form::above(line, more)) == cargo::parse_search_spec(more),
{
    form::a_row_is_read(line, more, |line: Seq<char>| cargo::search_row_spec(line));
    form::nothing_is_read();
}

/// An indented line is a binary and no crate.
pub proof fn binaries_are_no_crates(line: Seq<char>, more: Seq<char>)
    requires
        form::is_line(line),
        line.begins_blank(),
    ensures
        cargo::parse_install_list_spec(
            form::above(line, more),
        ) == cargo::parse_install_list_spec(more),
{
    form::a_row_is_read(line, more, |line: Seq<char>| cargo::header_spec(line));
    form::nothing_is_read();
}

/// What fails is told, and a dry run is refused.
pub proof fn failures_are_told(
    manager: cargo::Manager,
    name: Seq<char>,
    packages: Seq<RequestView>,
    ctx: OpContext,
    replies: Seq<ReplyView>,
)
    ensures
        replies.len() > 0 && !replies[0].success
            ==> manager.info_spec(name, replies) == StepView::<
            PackageView,
        >::Fail(replies[0].failure()),
        replies.len() == 2 && replies[0].success && !replies[1].success && session::called(
            cargo::parse_search_spec(replies[0].stdout),
            name,
        ) is Some ==> manager.info_spec(name, replies) == StepView::<PackageView>::Fail(
            replies[1].failure(),
        ),
        ctx.dry_run ==> manager.upgrade_spec(packages, ctx, replies) == StepView::<()>::Fail(
            ErrorView::Other("cargo: upgrade has no dry-run mode"@),
        ),
        !ctx.dry_run && replies.len() == 0 ==> manager.upgrade_spec(seq![], ctx, replies)
            == session::ask::<()>(
                CmdView::query(manager.program@).arg("install"@).arg("--list"@),
            ),
        !ctx.dry_run && replies.len() > 0 && !replies[0].success ==> manager.upgrade_spec(
            seq![],
            ctx,
            replies,
        ) == StepView::<()>::Fail(replies[0].failure()),
{
}

} // verus!

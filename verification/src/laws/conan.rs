//! What `conan` says, and where it is looked for.

use vstd::prelude::*;

use crate::backends::conan;
use crate::command::CmdView;
use crate::data::{self, DataView};
use crate::error::ErrorView;
use crate::form;
use crate::order;
use crate::package::{InstallState, PackageView};
use crate::request::RequestView;
use crate::rows;
use crate::session::{self, ReplyView, StepView};
use crate::text::Text;

verus! {

/// A pinned package is written with its version; what already is a reference
/// stays; a bare name stands for any version.
pub proof fn references_are_written(request: RequestView, version: Seq<char>)
    ensures
        request.version == Some(version)
            ==> conan::install_ref_spec(request) == request.name + "/"@ + version
                && conan::remove_pattern_spec(request) == request.name + "/"@ + version,
        request.version is None && request.name.has("/"@)
            ==> conan::install_ref_spec(request) == request.name
                && conan::remove_pattern_spec(request) == request.name,
        request.version is None && !request.name.has("/"@)
            ==> conan::install_ref_spec(request) == request.name + "/[>=0]"@
                && conan::remove_pattern_spec(request) == request.name + "/*"@,
{

}

/// A reference `name/version#revision` is that package in the state of the
/// listing.
pub proof fn references_are_read(
    name: Seq<char>,
    version: Seq<char>,
    revision: Seq<char>,
    state: InstallState,
)
    requires
        !name.contains('/') && !name.contains('#') && !version.contains('#'),
    ensures
        conan::parse_reference_spec(name + "/"@ + version + "#"@ + revision, state) == Some(
            PackageView { name, version: Some(version), state, ..PackageView::blank() },
        ),
        conan::parse_reference_spec(name + "/"@ + version, state) == Some(
            PackageView { name, version: Some(version), state, ..PackageView::blank() },
        ),
{
    reveal_strlit("/");
    reveal_strlit("#");
    let head = name + "/"@ + version;
    assert forall|i: int| 0 <= i < head.len() implies #[trigger] head[i] != '#' by {
        if i < name.len() {
            assert(head[i] == name[i] && name.contains(name[i]));
        } else if i > name.len() {
            assert(head[i] == version[i - name.len() - 1] && version.contains(
                version[i - name.len() - 1],
            ));
        }
    }
    form::a_piece_is_split_off(head, "#"@, revision);
    form::a_cut_is_found(name, "/"@, version);
    assert((seq![head] + revision.split("#"@))[0] == head);
}

/// What is asked for locally is installed, and what is asked for of the remotes
/// is to be had.
pub proof fn listings_have_their_state(reply: ReplyView, remotes: bool)
    ensures
        !reply.success ==> conan::listing_spec(reply, remotes) == Err::<Seq<PackageView>, ErrorView>(
            reply.failure(),
        ),
        reply.success ==> (conan::listing_spec(reply, remotes) matches Ok(packages) ==> forall|i: int|
            0 <= i < packages.len() ==> (#[trigger] packages[i]).state == if remotes {
                InstallState::Available
            } else {
                InstallState::Installed
            }),
{
    let state = if remotes {
        InstallState::Available
    } else {
        InstallState::Installed
    };
    if reply.success {
        match data::json_text(reply.stdout) {
            Ok(root) => {
                if root.entries() is Some {
                    rows::selected_have(
                        order::sorted_set(conan::references_spec(root.entries()->0)),
                        |reference: Seq<char>| conan::parse_reference_spec(reference, state),
                        |p: PackageView| p.state == state,
                    );
                }
            },
            Err(_) => {},
        }
    }
}

/// A package is looked for in the cache; where it is not there, on the remotes.
pub proof fn remotes_are_asked_last(
    manager: conan::Manager,
    name: Seq<char>,
    packages: Seq<PackageView>,
    replies: Seq<ReplyView>,
)
    ensures
        ({
            let step = manager.info_spec(name, replies);
            let query = CmdView::query(manager.program@).arg("list"@);
            &&& replies.len() == 0 ==> step == session::ask::<PackageView>(
                query.arg(
                    name + if name.has("/"@) { ":*"@ } else { "/*:*"@ },
                ).arg("--format=json"@),
            )
            &&& replies.len() > 0 && conan::listing_spec(replies[0], false) == Ok::<_, ErrorView>(
                packages,
            ) && packages.len() > 0 ==> step == StepView::Done(packages[0])
            &&& replies.len() == 1 && conan::listing_spec(replies[0], false) == Ok::<_, ErrorView>(
                packages,
            ) && packages.len() == 0 ==> step == session::ask::<PackageView>(
                query.arg(if name.has("/"@) { name } else { name + "/*"@ }).arg("--format=json"@).arg(
                    "--remote=*"@,
                ),
            )
            &&& replies.len() == 2 && (conan::listing_spec(replies[0], false) matches Ok(local)
                && local.len() == 0) && conan::listing_spec(replies[1], true) == Ok::<_, ErrorView>(
                packages,
            ) ==> step == if packages.len() > 0 {
                StepView::Done(packages[0])
            } else {
                StepView::Fail(ErrorView::NotFound(name))
            }
        }),
{
}

/// A list asks the cache or the remotes, and gives what was read from the reply.
pub proof fn listings_are_asked_for(
    manager: conan::Manager,
    pattern: Seq<char>,
    remotes: bool,
    replies: Seq<ReplyView>,
)
    ensures
        replies.len() == 0 ==> manager.list_step_spec(pattern, remotes, replies)
            == session::ask::<Seq<PackageView>>(
            CmdView::query(manager.program@).arg("list"@).arg(pattern).arg("--format=json"@).flag(
                remotes,
                "--remote=*"@,
            ),
        ),
        replies.len() > 0 ==> (conan::listing_spec(replies[0], remotes) matches Ok(packages)
            ==> manager.list_step_spec(pattern, remotes, replies) == StepView::Done(packages)),
{
}

/// The references of all sources are gathered, each once and in order.
pub proof fn references_are_gathered(
    sources: Seq<(Seq<char>, DataView)>,
    source: Seq<char>,
    reference: Seq<char>,
    details: DataView,
)
    ensures
        conan::references_spec(
            sources.push((source, DataView::Table(seq![(reference, details)]))),
        ) == conan::references_spec(sources).push(reference),
        conan::references_spec(sources.push((source, DataView::Other)))
            == conan::references_spec(sources),
        conan::references_spec(seq![]).len() == 0,
{
    let table = DataView::Table(seq![(reference, details)]);
    assert(sources.push((source, table)).drop_last() =~= sources);
    assert(sources.push((source, DataView::Other)).drop_last() =~= sources);
    let entries = seq![(reference, details)];
    assert(entries.map_values(|e: (Seq<char>, DataView)| e.0) =~= seq![reference]);
    assert(conan::references_spec(sources) + seq![reference] =~= conan::references_spec(sources).push(
        reference,
    ));
    assert(conan::references_spec(sources) + Seq::<Seq<char>>::empty() =~= conan::references_spec(
        sources,
    ));
}

/// Output that is not JSON, or no table, is refused with the reason.
pub proof fn output_has_to_be_a_table(json: DataView, detail: Seq<char>, state: InstallState)
    ensures
        conan::list_rows_spec(Err(detail), state) == Err::<Seq<PackageView>, _>(
            ErrorView::Parse { what: "conan list JSON"@, detail },
        ),
        json.entries() is None ==> conan::list_rows_spec(Ok(json), state) == Err::<
            Seq<PackageView>,
            _,
        >(
            ErrorView::Parse {
                what: "conan list JSON"@,
                detail: "top-level value is not an object"@,
            },
        ),
        json.entries() is Some ==> conan::list_rows_spec(Ok(json), state) is Ok,
{
}

/// A listing of one reference is that package.
pub proof fn listed_references_are_packages(
    reply: ReplyView,
    remotes: bool,
    source: Seq<char>,
    reference: Seq<char>,
    details: DataView,
    package: PackageView,
)
    requires
        reply.success,
        data::json_text(reply.stdout) == Ok::<_, Seq<char>>(
            DataView::Table(seq![(source, DataView::Table(seq![(reference, details)]))]),
        ),
        conan::parse_reference_spec(
            reference,
            if remotes {
                InstallState::Available
            } else {
                InstallState::Installed
            },
        ) == Some(package),
    ensures
        conan::listing_spec(reply, remotes) == Ok::<_, ErrorView>(seq![package]),
{
    let none = Seq::<(Seq<char>, DataView)>::empty();
    let table = DataView::Table(seq![(reference, details)]);
    references_are_gathered(none, source, reference, details);
    assert(none.push((source, table)) =~= seq![(source, table)]);
    let all = conan::references_spec(seq![(source, table)]);
    assert(all =~= seq![reference]);
    order::sorted_sets_ascend(all);
    let set = order::sorted_set(all);
    assert(all[0] == reference);
    assert(all.contains(reference));
    assert(set.contains(reference));
    order::lemma_sorted_len(all, |a: Seq<char>, b: Seq<char>| a.before(b));
    reveal_with_fuel(order::distinct, 2);
    reveal_with_fuel(order::sorted, 2);
    reveal_with_fuel(order::inserted, 2);
    assert(all.drop_last() =~= seq![]);
    assert(set =~= seq![reference]);
    reveal_with_fuel(rows::select, 2);
    assert(seq![reference].drop_last() =~= seq![] && seq![reference].last() == reference);
    let none = Seq::<PackageView>::empty();
    assert(none.push(package) =~= seq![package]);
}

} // verus!

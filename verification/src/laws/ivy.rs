//! What the cache of Ivy says, and what is removed from it.

use vstd::prelude::*;

use crate::backends::ivy;
use crate::error::ErrorView;
use crate::form;
use crate::laws::versions;
use crate::package::{InstallState, PackageView};
use crate::path;
use crate::request::{OpContext, RequestView};
use crate::rows;
use crate::session::{self, ActionView, PartView, ReplyView, StepView};
use crate::text::{self, Pieces, Text};

verus! {

/// A coordinate is `org:module`; anything less is refused.
pub proof fn coordinates_are_read(name: Seq<char>, org: Seq<char>, module: Seq<char>)
    ensures
        name.split(":"@).len() > 1 && name.split(":"@)[0] == org && name.split(":"@)[1] == module
            && org.len() > 0 && module.len() > 0 ==> ivy::split_coordinate_spec(name) == Ok::<
            _,
            ErrorView,
        >((org, module)),
        name.split(":"@).len() == 1 ==> ivy::split_coordinate_spec(name) is Err,
        ivy::cache_dir_spec(org) == path::join_spec(path::join_spec(org, ".ivy2"@), "cache"@),
{
}

/// A descriptor `ivy-revision.xml` is that revision of its module, and another
/// file is none.
pub proof fn descriptors_are_read(name: Seq<char>, revision: Seq<char>, file: Seq<char>)
    ensures
        ivy::revision_row_spec(name, "ivy-"@ + (revision + ".xml"@)) == Some(
            PackageView {
                name,
                version: Some(revision),
                state: InstallState::Installed,
                ..PackageView::blank()
            },
        ),
        !file.begins("ivy-"@) ==> ivy::revision_row_spec(name, file) is None,
{
    form::a_prefix_is_found("ivy-"@, revision + ".xml"@);
    form::a_suffix_is_found(revision, ".xml"@);
}

/// The entries of each module are read in their turn, and what they hold belongs
/// to that module.
pub proof fn modules_are_read_in_turn(
    known: Seq<PackageView>,
    org: Seq<char>,
    path: Seq<char>,
    modules: Seq<Seq<char>>,
    replies: Seq<ReplyView>,
)
    requires
        modules.len() > 0,
    ensures
        replies.len() == 0
            ==> ivy::modules_of_spec(known, org, path, modules, replies) == PartView::<
            Seq<PackageView>,
        >::Act(ActionView::Entries(path::join_spec(path, modules[0]))),
        replies.len() > 0 && !replies[0].success ==> ivy::modules_of_spec(
            known,
            org,
            path,
            modules,
            replies,
        ) == PartView::<Seq<PackageView>>::Fail(replies[0].failure()),
        replies.len() > 0 && replies[0].success ==> ivy::modules_of_spec(
            known,
            org,
            path,
            modules,
            replies,
        ) == ivy::modules_of_spec(
            known + ivy::revisions_spec(org + ":"@ + modules[0], replies[0].entries),
            org,
            path,
            modules.skip(1),
            replies.skip(1),
        ),
        ivy::modules_of_spec(known, org, path, seq![], replies) == PartView::Got(known, replies),
{
}

/// With each module answered, the one that follows is read.
pub proof fn each_module_is_read_once(
    known: Seq<PackageView>,
    org: Seq<char>,
    path: Seq<char>,
    modules: Seq<Seq<char>>,
    replies: Seq<ReplyView>,
)
    requires
        replies.len() < modules.len(),
        forall|i: int| 0 <= i < replies.len() ==> (#[trigger] replies[i]).success,
    ensures
        ivy::modules_of_spec(known, org, path, modules, replies) == PartView::<
            Seq<PackageView>,
        >::Act(ActionView::Entries(path::join_spec(path, modules[replies.len() as int]))),
    decreases modules.len(),
{
    if replies.len() > 0 {
        assert(replies[0].success);
        let rest = replies.skip(1);
        assert forall|i: int| 0 <= i < rest.len() implies (#[trigger] rest[i]).success by {
            assert(rest[i] == replies[i + 1]);
        }
        each_module_is_read_once(
            known + ivy::revisions_spec(org + ":"@ + modules[0], replies[0].entries),
            org,
            path,
            modules.skip(1),
            rest,
        );
    }
}

/// The modules of each organisation are read in their turn.
pub proof fn organisations_are_read_in_turn(
    known: Seq<PackageView>,
    cache: Seq<char>,
    orgs: Seq<Seq<char>>,
    replies: Seq<ReplyView>,
)
    requires
        orgs.len() > 0,
    ensures
        replies.len() == 0 ==> ivy::modules_below_spec(known, cache, orgs, replies) == PartView::<
            Seq<PackageView>,
        >::Act(
            ActionView::Directories {
                path: path::join_spec(cache, orgs[0]),
                links: true,
                lenient: false,
            },
        ),
        replies.len() > 0 && replies[0].success ==> ivy::modules_below_spec(
            known,
            cache,
            orgs,
            replies,
        ) == match ivy::modules_of_spec(
            known,
            orgs[0],
            path::join_spec(cache, orgs[0]),
            replies[0].entries,
            replies.skip(1),
        ) {
            PartView::Got(packages, rest) => ivy::modules_below_spec(
                packages,
                cache,
                orgs.skip(1),
                rest,
            ),
            other => other,
        },
        ivy::modules_below_spec(known, cache, seq![], replies) == PartView::Got(known, replies),
{
}

/// Home is asked for, then whether the cache is there, then what it holds; where
/// it is not there nothing is installed.
pub proof fn the_cache_is_read_in_order(replies: Seq<ReplyView>)
    ensures
        ({
            let step = ivy::scan_cache_spec(replies);
            let cache = path::join_spec(path::join_spec(replies[0].stdout, ".ivy2"@), "cache"@);
            &&& replies.len() == 0 ==> step == StepView::<Seq<PackageView>>::Act(
                ActionView::Variable("HOME"@),
            )
            &&& replies.len() > 0 && !replies[0].success ==> step is Fail
            &&& replies.len() == 1 && replies[0].success ==> step == StepView::<
                Seq<PackageView>,
            >::Act(ActionView::IsDirectory(cache))
            &&& replies.len() == 2 && replies[0].success && !replies[1].success ==> step
                == StepView::Done(Seq::<PackageView>::empty())
            &&& replies.len() == 2 && replies[0].success && replies[1].success ==> step
                == StepView::<Seq<PackageView>>::Act(
                ActionView::Directories { path: cache, links: true, lenient: false },
            )
            &&& replies.len() == 3 && replies[0].success && replies[1].success
                && replies[2].success
                && replies[2].entries.len() > 0 ==> step == StepView::<Seq<PackageView>>::Act(
                ActionView::Directories {
                    path: path::join_spec(cache, replies[2].entries[0]),
                    links: true,
                    lenient: false,
                },
            )
        }),
{
    if replies.len() == 3 {
        assert(replies.skip(1).skip(1)[0] == replies[2]);
    }
}

/// A module is removed where it is there, and only told of in a dry run.
pub proof fn modules_are_removed(
    manager: ivy::Manager,
    cache: Seq<char>,
    name: Seq<char>,
    org: Seq<char>,
    module: Seq<char>,
    ctx: OpContext,
    replies: Seq<ReplyView>,
)
    requires
        ivy::split_coordinate_spec(name) == Ok::<_, ErrorView>((org, module)),
    ensures
        ({
            let part = manager.remove_one_spec(cache, name, ctx, replies);
            let path = path::join_spec(path::join_spec(cache, org), module);
            &&& replies.len() == 0 ==> part == PartView::<()>::Act(ActionView::IsDirectory(path))
            &&& replies.len() > 0 && !replies[0].success ==> part == PartView::<()>::Fail(
                ErrorView::NotFound(name),
            )
            &&& replies.len() == 1 && replies[0].success && ctx.dry_run ==> part == PartView::<()>::Act(
                ActionView::Report("would remove "@ + path),
            )
            &&& replies.len() == 1 && replies[0].success && !ctx.dry_run ==> part == PartView::<
                (),
            >::Act(ActionView::RemoveTree(path))
            &&& replies.len() == 2 && replies[0].success && replies[1].success && !ctx.dry_run
                ==> part == PartView::<()>::Act(ActionView::Report("removed "@ + path))
        }),
{
}

/// Each of the named modules is removed in its turn.
pub proof fn every_module_is_removed(
    manager: ivy::Manager,
    cache: Seq<char>,
    packages: Seq<RequestView>,
    ctx: OpContext,
    replies: Seq<ReplyView>,
)
    requires
        packages.len() > 0,
    ensures
        match manager.remove_one_spec(cache, packages[0].name, ctx, replies) {
            PartView::Act(action) => manager.remove_each_spec(cache, packages, ctx, replies)
                == StepView::<()>::Act(action),
            PartView::Fail(error) => manager.remove_each_spec(cache, packages, ctx, replies)
                == StepView::<()>::Fail(error),
            PartView::Got(_, rest) => manager.remove_each_spec(cache, packages, ctx, replies)
                == manager.remove_each_spec(cache, packages.skip(1), ctx, rest),
        },
        manager.remove_each_spec(cache, seq![], ctx, replies) == StepView::Done(()),
{
}

/// What is asked for by its revision is that revision, and what is asked for
/// without one is one of the module.
pub proof fn revisions_are_asked_for(
    packages: Seq<PackageView>,
    coordinate: Seq<char>,
    requested: Option<Seq<char>>,
    package: PackageView,
)
    ensures
        ivy::asked_for_spec(packages, coordinate, requested) matches Some(p)
            ==> p.name == coordinate
            && packages.contains(p) && (requested is Some ==> p.version == requested),
        packages.contains(package) && package.name == coordinate && (requested is None
            || package.version == requested) ==> ivy::asked_for_spec(
            packages,
            coordinate,
            requested,
        ) is Some,
{
    let f = |p: PackageView| ivy::is_asked_for(p, coordinate, requested);
    let kept = rows::keep(packages, f);
    rows::kept_are_exactly(packages, f);
    lemma_newest_is_one(kept);
    assert(kept.contains(package) <==> packages.contains(package) && f(package));
    match ivy::newest_spec(kept) {
        Some(p) => {
            assert(kept.contains(p));
        },
        None => {},
    }
}

proof fn lemma_newest_is_one(packages: Seq<PackageView>)
    ensures
        match ivy::newest_spec(packages) {
            Some(p) => packages.contains(p),
            None => packages.len() == 0,
        },
    decreases packages.len(),
{
    if packages.len() > 0 {
        lemma_newest_is_one(packages.drop_last());
        assert(packages[packages.len() - 1] == packages.last());
        match ivy::newest_spec(packages.drop_last()) {
            Some(p) => {
                let i = choose|i: int|
                    0 <= i < packages.drop_last().len() && packages.drop_last()[i] == p;
                assert(packages[i] == p);
            },
            None => {},
        }
    }
}

/// A module is described by the newest of its revisions that is asked for.
pub proof fn descriptions_are_found(
    manager: ivy::Manager,
    name: Seq<char>,
    org: Seq<char>,
    module: Seq<char>,
    packages: Seq<PackageView>,
    replies: Seq<ReplyView>,
)
    ensures
        ivy::split_coordinate_spec(name) is Err ==> manager.info_spec(name, replies) is Fail,
        ivy::split_coordinate_spec(name) == Ok::<_, ErrorView>((org, module))
            && ivy::scan_cache_spec(replies) == StepView::Done(packages) ==> manager.info_spec(
            name,
            replies,
        ) == session::found(
            ivy::asked_for_spec(packages, org + ":"@ + module, name.split(":"@).nth(2)),
            name,
        ),
        ivy::split_coordinate_spec(name) is Ok && replies.len() == 0 ==> manager.info_spec(
            name,
            replies,
        ) == StepView::<PackageView>::Act(ActionView::Variable("HOME"@)),
        ivy::cache_spec(replies) matches PartView::Got(cache, rest) ==> cache == path::join_spec(
            path::join_spec(replies[0].stdout, ".ivy2"@),
            "cache"@,
        ) && rest == replies.skip(1),
{
}

/// What is not older than all before it is the newest so far.
pub proof fn the_newest_is_kept(
    packages: Seq<PackageView>,
    best: PackageView,
    package: PackageView,
)
    requires
        ivy::newest_spec(packages) == Some(best),
    ensures
        ivy::is_newer_spec(best, package)
            ==> ivy::newest_spec(packages.push(package)) == Some(best),
        !ivy::is_newer_spec(best, package) ==> ivy::newest_spec(packages.push(package)) == Some(
            package,
        ),
        ivy::newest_spec(seq![package]) == Some(package),
{
    assert(packages.push(package).drop_last() =~= packages);
    reveal_with_fuel(ivy::newest_spec, 2);
    assert(seq![package].drop_last() =~= seq![] && seq![package].last() == package);
}

/// Modules are listed by name, and by revision where they share it.
pub proof fn modules_have_places(a: PackageView, b: PackageView, x: Seq<char>, y: Seq<char>)
    ensures
        a.name.before(b.name) ==> ivy::stands_before(a, b),
        a.name == b.name && a.version == Some(x) && b.version == Some(y) && !a.name.before(b.name)
            ==> ivy::stands_before(a, b) == x.before(y),
        a.name != b.name && !a.name.before(b.name) ==> !ivy::stands_before(a, b),
{
}

/// A revision of digits alone is newer where its number is greater.
pub proof fn numbers_are_newer_by_value(
    a: Seq<char>,
    b: Seq<char>,
    x: PackageView,
    y: PackageView,
)
    requires
        a.len() > 0 && text::all_digits(a),
        b.len() > 0 && text::all_digits(b),
        x.version == Some(a) && y.version == Some(b),
    ensures
        ivy::is_newer_spec(x, y) == (text::digits_value(a) > text::digits_value(b)),
{
    let set = ".-"@;
    reveal_strlit(".-");
    lemma_one_chunk(a, set);
    lemma_one_chunk(b, set);
    let none = Seq::<Seq<char>>::empty();
    assert(seq![a] + none =~= seq![a] && seq![b] + none =~= seq![b]);
    versions::numbers_rank_by_value(a, b);
    versions::the_first_difference_decides(a, b, none, none);
}

proof fn lemma_one_chunk(s: Seq<char>, set: Seq<char>)
    requires
        s.len() > 0 && text::all_digits(s),
        forall|i: int| 0 <= i < set.len() ==> !text::is_digit(#[trigger] set[i]),
    ensures
        s.split(set) == seq![s],
{
    text::lemma_find_set(s, set, true);
    let at = text::find_set(s, set, true) as int;
    if at < s.len() {
        assert(text::is_digit(s[at]));
        assert(set.contains(s[at]));
        let i = choose|i: int| 0 <= i < set.len() && set[i] == s[at];
        assert(!text::is_digit(set[i]));
    }
}

/// Each descriptor of a module is a revision, in its place.
pub proof fn revisions_are_read_in_order(
    name: Seq<char>,
    files: Seq<Seq<char>>,
    file: Seq<char>,
    package: PackageView,
)
    ensures
        ivy::revision_row_spec(name, file) == Some(package) ==> ivy::revisions_spec(
            name,
            files.push(file),
        ) == ivy::revisions_spec(name, files).push(package),
        ivy::revision_row_spec(name, file) is None ==> ivy::revisions_spec(name, files.push(file))
            == ivy::revisions_spec(name, files),
        ivy::revisions_spec(name, seq![]).len() == 0,
{
    assert(files.push(file).drop_last() =~= files);
}

} // verus!

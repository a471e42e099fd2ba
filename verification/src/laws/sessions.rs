//! What is done next, and what replies become.

use vstd::prelude::*;

use crate::command::CmdView;
use crate::error::ErrorView;
use crate::package::PackageView;
use crate::rows;
use crate::session::{self, ActionView, PartView, ReplyView, StepView};
use crate::text::Text;

verus! {

/// A listing asks once; a failure fails, and a success gives what is read from
/// the output.
pub proof fn listings_are_asked_for<V>(
    cmd: CmdView,
    replies: Seq<ReplyView>,
    f: spec_fn(Seq<char>) -> Seq<V>,
)
    ensures
        replies.len() == 0 ==> session::listed(cmd, replies, f) == StepView::<Seq<V>>::Act(
            ActionView::Query(cmd),
        ),
        replies.len() > 0 && !replies[0].success
            ==> session::listed(cmd, replies, f) == StepView::<
            Seq<V>,
        >::Fail(ErrorView::Failed { code: replies[0].code, stderr: replies[0].stderr }),
        replies.len() > 0 && replies[0].success ==> session::listed(cmd, replies, f)
            == StepView::Done(f(replies[0].stdout)),
{
}

/// A search asks once; a failure without output has found nothing, and else what
/// is read from the output is found.
pub proof fn searches_may_find_nothing<V>(
    cmd: CmdView,
    replies: Seq<ReplyView>,
    f: spec_fn(Seq<char>) -> Seq<V>,
)
    ensures
        replies.len() == 0 ==> session::searched(cmd, replies, f) == StepView::<Seq<V>>::Act(
            ActionView::Query(cmd),
        ),
        replies.len() > 0 && !replies[0].success && replies[0].stdout.trim().len() == 0
            ==> session::searched(cmd, replies, f) == StepView::Done(Seq::<V>::empty()),
        replies.len() > 0 && (replies[0].success || replies[0].stdout.trim().len() > 0)
            ==> session::searched(cmd, replies, f) == StepView::Done(f(replies[0].stdout)),
{
}

/// A description asks once; where the command fails, or its output describes
/// nothing, the package is not found.
pub proof fn descriptions_are_asked_for<V>(
    cmd: CmdView,
    replies: Seq<ReplyView>,
    name: Seq<char>,
    f: spec_fn(Seq<char>) -> Option<V>,
)
    ensures
        replies.len() == 0 ==> session::described(cmd, replies, name, f) == StepView::<V>::Act(
            ActionView::Query(cmd),
        ),
        replies.len() > 0 && (!replies[0].success || f(replies[0].stdout) is None)
            ==> session::described(cmd, replies, name, f) == StepView::<V>::Fail(
            ErrorView::NotFound(name),
        ),
        replies.len() > 0 && replies[0].success ==> (f(replies[0].stdout) matches Some(package)
            ==> session::described(cmd, replies, name, f) == StepView::Done(package)),
{
}

/// A package is picked from a listing by its name.
pub proof fn packages_are_picked(
    cmd: CmdView,
    replies: Seq<ReplyView>,
    name: Seq<char>,
    f: spec_fn(Seq<char>) -> Seq<PackageView>,
    i: int,
)
    ensures
        replies.len() == 0 ==> session::picked(cmd, replies, name, f) == StepView::<
            PackageView,
        >::Act(ActionView::Query(cmd)),
        replies.len() > 0 && !replies[0].success ==> session::picked(cmd, replies, name, f)
            == StepView::<PackageView>::Fail(
            ErrorView::Failed { code: replies[0].code, stderr: replies[0].stderr },
        ),
        replies.len() > 0 && replies[0].success ==> ({
            let all = f(replies[0].stdout);
            &&& 0 <= i < all.len() && all[i].name == name && (forall|j: int|
                0 <= j < i ==> (#[trigger] all[j]).name != name) ==> session::picked(
                cmd,
                replies,
                name,
                f,
            ) == StepView::Done(all[i])
            &&& (forall|j: int| 0 <= j < all.len() ==> (#[trigger] all[j]).name != name)
                ==> session::picked(cmd, replies, name, f) == StepView::<PackageView>::Fail(
                ErrorView::NotFound(name),
            )
        }),
{
    if replies.len() > 0 && replies[0].success {
        let all = f(replies[0].stdout);
        lemma_called(all, name, i);
    }
}

proof fn lemma_called(all: Seq<PackageView>, name: Seq<char>, i: int)
    ensures
        0 <= i < all.len() && all[i].name == name && (forall|j: int|
            0 <= j < i ==> (#[trigger] all[j]).name != name) ==> session::called(all, name) == Some(
            all[i],
        ),
        (forall|j: int| 0 <= j < all.len() ==> (#[trigger] all[j]).name != name) ==> session::called(
            all,
            name,
        ) is None,
    decreases all.len(),
{
    if all.len() > 0 {
        let rest = all.skip(1);
        lemma_called(rest, name, i - 1);
        assert forall|j: int| 0 <= j < rest.len() implies #[trigger] rest[j] == all[j + 1] by {}
        if i == 0 || all[0].name == name {
            assert(all[0] == all.first());
        }
    }
}

/// The first package with the name is the one that is called so, and there is
/// none exactly where no package has it.
pub proof fn names_are_looked_up(packages: Seq<PackageView>, name: Seq<char>, i: int)
    ensures
        0 <= i < packages.len() && packages[i].name == name && (forall|j: int|
            0 <= j < i ==> (#[trigger] packages[j]).name != name) ==> session::called(packages, name)
            == Some(packages[i]),
        (forall|j: int| 0 <= j < packages.len() ==> (#[trigger] packages[j]).name != name)
            ==> session::called(packages, name) is None,
        session::called_but_case(packages, name) matches Some(p) ==> packages.contains(p)
            && p.name.lower() == name.lower(),
        0 <= i < packages.len() && packages[i].name.lower() == name.lower()
            ==> session::called_but_case(packages, name) is Some,
{
    lemma_called(packages, name, i);
    rows::first_has(packages, |p: PackageView| p.name.lower() == name.lower());
}

/// A command is run once for its effect; a failure fails, and a success goes on
/// with the replies behind it. A report needs no success.
pub proof fn commands_are_run(cmd: CmdView, message: Seq<char>, replies: Seq<ReplyView>)
    ensures
        replies.len() == 0 ==> session::running(cmd, replies) == PartView::<()>::Act(
            ActionView::Run(cmd),
        ),
        replies.len() > 0 && !replies[0].success ==> session::running(cmd, replies) == PartView::<
            (),
        >::Fail(ErrorView::Failed { code: replies[0].code, stderr: replies[0].stderr }),
        replies.len() > 0 && replies[0].success ==> session::running(cmd, replies) == PartView::Got(
            (),
            replies.skip(1),
        ),
        replies.len() == 0 ==> session::reporting(message, replies) == PartView::<()>::Act(
            ActionView::Report(message),
        ),
        replies.len() > 0 ==> session::reporting(message, replies) == PartView::Got(
            (),
            replies.skip(1),
        ),
        session::running_all(seq![], replies) == PartView::Got((), replies),
{
}

/// What is found is the result, and what is not is not found.
pub proof fn results_are_found<V>(value: V, name: Seq<char>, rest: Seq<ReplyView>)
    ensures
        session::found(Some(value), name) == StepView::Done(value),
        session::found(None::<V>, name) == StepView::<V>::Fail(ErrorView::NotFound(name)),
        PartView::Got(value, rest).whole() == StepView::Done(value),
        forall|action: ActionView| #[trigger]
            PartView::<V>::Act(action).whole() == StepView::<V>::Act(action),
        forall|error: ErrorView| #[trigger]
            PartView::<V>::Fail(error).whole() == StepView::<V>::Fail(error),
{
}

} // verus!

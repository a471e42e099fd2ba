//! Where the shims are, and which there are.

use vstd::prelude::*;

use crate::backends::deno;
use crate::error::ErrorView;
use crate::package::{InstallState, PackageView};
use crate::path;
use crate::session::{ActionView, ReplyView, StepView};

verus! {

/// The directory of the shims is `bin` under the install root, or under
/// `.deno` at home where no root is set.
pub proof fn shims_have_a_directory(root: Seq<char>, home: Seq<char>)
    ensures
        root.len() > 0 ==> deno::bin_dir_spec(Some(root), Some(home)) == Some(
            path::join_spec(root, "bin"@),
        ) && deno::bin_dir_spec(Some(root), None) == Some(path::join_spec(root, "bin"@)),
        home.len() > 0 ==> deno::bin_dir_spec(None, Some(home)) == Some(
            path::join_spec(path::join_spec(home, ".deno"@), "bin"@),
        ) && deno::bin_dir_spec(Some(seq![]), Some(home)) == deno::bin_dir_spec(None, Some(home)),
        deno::bin_dir_spec(None, None) is None,
{
}

/// The two variables are read, then the directory; every shim but deno itself
/// is installed, and where the directory is missing nothing is.
pub proof fn shims_are_listed(
    manager: deno::Manager,
    replies: Seq<ReplyView>,
    dir: Seq<char>,
    name: Seq<char>,
)
    ensures
        ({
            let step = manager.shims_spec(replies);
            &&& replies.len() == 0 ==> step == StepView::<Seq<PackageView>>::Act(
                ActionView::Variable("DENO_INSTALL_ROOT"@),
            )
            &&& replies.len() == 1 ==> step == StepView::<Seq<PackageView>>::Act(
                ActionView::Variable("HOME"@),
            )
            &&& replies.len() >= 2 && deno::bin_dir_spec(
                if replies[0].success {
                    Some(replies[0].stdout)
                } else {
                    None
                },
                if replies[1].success {
                    Some(replies[1].stdout)
                } else {
                    None
                },
            ) == Some(dir) ==> ({
                &&& replies.len() == 2 ==> step == StepView::<Seq<PackageView>>::Act(
                    ActionView::Executables(dir),
                )
                &&& replies.len() == 3 && replies[2].missing ==> step == StepView::Done(
                    Seq::<PackageView>::empty(),
                )
                &&& replies.len() == 3 && !replies[2].missing && replies[2].success ==> ({
                    &&& step matches StepView::Done(packages)
                    &&& forall|i: int|
                        0 <= i < packages.len() ==> (#[trigger] packages[i]).state
                            == InstallState::Installed && replies[2].entries.contains(
                            packages[i].name,
                        ) && packages[i].name != "deno"@
                    &&& replies[2].entries.contains(name) && name != "deno"@ ==> packages.contains(
                        PackageView {
                            name,
                            state: InstallState::Installed,
                            ..PackageView::blank()
                        },
                    )
                })
            })
        }),
{
    if replies.len() == 3 {
        let files = replies[2].entries;
        let names = deno::list_shims_spec(files);
        deno::shims_are_listed_in_order(files);
        let packages = names.map_values(|name: Seq<char>| deno::shim_spec(name));
        assert forall|i: int| 0 <= i < packages.len() implies (#[trigger] packages[i]).state
            == InstallState::Installed && files.contains(packages[i].name) && packages[i].name
            != "deno"@ by {
            assert(names.contains(names[i]));
        }
        if files.contains(name) && name != "deno"@ {
            assert(names.contains(name));
            let i = choose|i: int| 0 <= i < names.len() && names[i] == name;
            assert(packages[i] == PackageView {
                name,
                state: InstallState::Installed,
                ..PackageView::blank()
            });
        }
    }
}

/// Without a root there is nothing to list, and what fails is told.
pub proof fn failures_are_told(manager: deno::Manager, replies: Seq<ReplyView>, dir: Seq<char>)
    ensures
        replies.len() >= 2 && !replies[0].success && !replies[1].success
            ==> manager.shims_spec(replies)
            == StepView::<Seq<PackageView>>::Fail(
            ErrorView::Other(
                "deno: cannot locate the install root (neither DENO_INSTALL_ROOT nor HOME is set)"@,
            ),
        ),
        replies.len() == 3 && replies[0].success && replies[0].stdout.len() > 0
            && !replies[2].missing
            && !replies[2].success ==> manager.shims_spec(replies) == StepView::<
            Seq<PackageView>,
        >::Fail(replies[2].failure()),
{
}

} // verus!
